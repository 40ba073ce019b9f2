use money_map::store::object_id::ObjectId;

#[test]
fn parses_a_well_formed_identifier() {
    let oid = ObjectId::with_string("000000000000000000000010").expect("should parse");
    assert_eq!(oid.value, 16);
}

#[test]
fn parses_mixed_case_hex() {
    let oid = ObjectId::with_string("0000000000000000000000Ff").expect("should parse");
    assert_eq!(oid.value, 255);
}

#[test]
fn parses_the_largest_identifier() {
    let oid = ObjectId::with_string("ffffffffffffffffffffffff").expect("should parse");
    assert_eq!(oid.value, (1u128 << 96) - 1);
}

#[test]
fn rejects_a_short_identifier() {
    assert!(ObjectId::with_string("xyz").is_none());
    assert!(ObjectId::with_string("").is_none());
    assert!(ObjectId::with_string("00000000000000000000001").is_none());
}

#[test]
fn rejects_a_long_identifier() {
    assert!(ObjectId::with_string("0000000000000000000000100").is_none());
}

#[test]
fn rejects_non_hex_characters() {
    assert!(ObjectId::with_string("00000000000000000000001g").is_none());
    assert!(ObjectId::with_string("0000000000000000000000 1").is_none());
}
