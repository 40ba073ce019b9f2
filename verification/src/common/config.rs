//! Runtime configuration handed to the controllers.
//!
//! Reading a configuration file is a collaborator concern; the core only
//! carries the resolved values.

use vstd::prelude::*;

verus! {

/// Resolved configuration values for one running instance.
pub struct Config {
    pub hostname: String,
    pub port: u64,
}

impl Config {
    pub fn new(hostname: &str, port: u64) -> (c: Config)
        ensures
            c.hostname@ == hostname@,
            c.port == port,
    {
        Config { hostname: hostname.to_owned(), port }
    }
}

} // verus!
