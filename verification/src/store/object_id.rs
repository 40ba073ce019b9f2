//! Store-generated object identifiers.
//!
//! An identifier is a fixed-width value; its textual form is a string of
//! exactly 24 hexadecimal digits. Parsing is total and verified: a malformed
//! string is rejected rather than panicking.

use vstd::prelude::*;

verus! {

/// The number of hexadecimal digits in the textual form of an identifier.
pub const OBJECT_ID_HEX_LEN: usize = 24;

/// A store-generated, fixed-width, sortable object identifier.
#[derive(Clone, Copy, PartialEq, Eq, Structural, Debug)]
pub struct ObjectId {
    pub value: u128,
}

/// Whether `c` is an ASCII hexadecimal digit.
pub open spec fn is_hex_digit(c: char) -> bool {
    (0x30 <= c as u32 && c as u32 <= 0x39)  // '0'..'9'
    || (0x61 <= c as u32 && c as u32 <= 0x66)  // 'a'..'f'
    || (0x41 <= c as u32 && c as u32 <= 0x46)  // 'A'..'F'
}

/// The numeric value of a hexadecimal digit (0 for any other character).
pub open spec fn hex_digit_val(c: char) -> nat {
    if 0x30 <= c as u32 && c as u32 <= 0x39 {
        (c as u32 - 0x30) as nat
    } else if 0x61 <= c as u32 && c as u32 <= 0x66 {
        (c as u32 - 0x61 + 10) as nat
    } else if 0x41 <= c as u32 && c as u32 <= 0x46 {
        (c as u32 - 0x41 + 10) as nat
    } else {
        0
    }
}

/// The numeric value of a big-endian hexadecimal digit string.
pub open spec fn hex_value(s: Seq<char>) -> nat
    decreases s.len(),
{
    if s.len() == 0 {
        0
    } else {
        16 * hex_value(s.drop_last()) + hex_digit_val(s.last())
    }
}

/// Whether `s` is a well-formed textual identifier: exactly 24 hex digits.
pub open spec fn valid_object_id_hex(s: Seq<char>) -> bool {
    s.len() == OBJECT_ID_HEX_LEN && forall|i: int| 0 <= i < s.len() ==> is_hex_digit(s[i])
}

/// 16 raised to the `n`th power.
pub open spec fn pow16(n: nat) -> nat
    decreases n,
{
    if n == 0 {
        1
    } else {
        16 * pow16((n - 1) as nat)
    }
}

proof fn lemma_pow16_increases(m: nat, n: nat)
    requires
        m <= n,
    ensures
        pow16(m) <= pow16(n),
    decreases n,
{
    if m < n {
        lemma_pow16_increases(m, (n - 1) as nat);
        assert(pow16(n) == 16 * pow16((n - 1) as nat));
    }
}

proof fn lemma_hex_value_bound(s: Seq<char>)
    ensures
        hex_value(s) < pow16(s.len()),
    decreases s.len(),
{
    if s.len() > 0 {
        lemma_hex_value_bound(s.drop_last());
        assert(hex_digit_val(s.last()) < 16);
    }
}

impl ObjectId {
    /// Parse the 24-hex-digit textual form of an identifier.
    ///
    /// Returns `Some` exactly on well-formed input; the parsed value is the
    /// numeric value of the digit string.
    pub fn with_string(s: &str) -> (r: Option<ObjectId>)
        ensures
            r is Some <==> valid_object_id_hex(s@),
            r matches Some(oid) ==> oid.value == hex_value(s@),
    {
        let n = s.unicode_len();
        if n != OBJECT_ID_HEX_LEN {
            return None;
        }
        let mut acc: u128 = 0;
        let mut i: usize = 0;
        while i < OBJECT_ID_HEX_LEN
            invariant
                s@.len() == OBJECT_ID_HEX_LEN,
                i <= OBJECT_ID_HEX_LEN,
                acc == hex_value(s@.subrange(0, i as int)),
                forall|j: int| 0 <= j < i ==> is_hex_digit(s@[j]),
            decreases OBJECT_ID_HEX_LEN - i,
        {
            let c = s.get_char(i);
            let u = c as u32;
            let d: u32 = if 0x30 <= u && u <= 0x39 {
                u - 0x30
            } else if 0x61 <= u && u <= 0x66 {
                u - 0x61 + 10
            } else if 0x41 <= u && u <= 0x46 {
                u - 0x41 + 10
            } else {
                return None;
            };
            proof {
                let pre = s@.subrange(0, i as int);
                let ext = s@.subrange(0, i as int + 1);
                assert(ext.drop_last() =~= pre);
                assert(ext.last() == s@[i as int]);
                lemma_hex_value_bound(pre);
                lemma_pow16_increases(pre.len(), 23);
                reveal_with_fuel(pow16, 24);
                assert(acc < 0x100000000000000000000000);
            }
            acc = 16 * acc + (d as u128);
            i = i + 1;
        }
        proof {
            assert(s@.subrange(0, OBJECT_ID_HEX_LEN as int) =~= s@);
        }
        Some(ObjectId { value: acc })
    }
}

} // verus!
