use dragon::UserId;

#[test]
fn formatting_matches_the_canonical_uuid_rendering() {
    let value = 0x0123456789abcdef0123456789abcdefu128;
    let ours = UserId { value }.to_uuid_string();
    let theirs = uuid::Uuid::from_u128(value).to_string();
    assert_eq!(ours, theirs);
    assert_eq!(ours, "01234567-89ab-cdef-0123-456789abcdef");
}

#[test]
fn formatting_zero_pads_small_values() {
    let ours = UserId { value: 5 }.to_uuid_string();
    assert_eq!(ours, "00000000-0000-0000-0000-000000000005");
}

#[test]
fn parsing_inverts_formatting() {
    for value in [0u128, 1, 0xdeadbeef, u128::MAX, 0x0123456789abcdef0123456789abcdef] {
        let s = UserId { value }.to_uuid_string();
        assert_eq!(UserId::from_uuid_str(&s), Some(UserId { value }));
    }
}

#[test]
fn parsing_agrees_with_the_uuid_crate_on_hyphenated_text() {
    let text = "A1B2C3D4-E5F6-0718-293A-4B5C6D7E8F90";
    let ours = UserId::from_uuid_str(text).unwrap();
    let theirs = uuid::Uuid::parse_str(text).unwrap();
    assert_eq!(ours.value, theirs.as_u128());
}

#[test]
fn parsing_rejects_misshapen_text() {
    assert_eq!(UserId::from_uuid_str(""), None);
    assert_eq!(UserId::from_uuid_str("0123456789abcdef0123456789abcdef"), None);
    assert_eq!(
        UserId::from_uuid_str("01234567-89ab-cdef-0123-456789abcde"),
        None
    );
    assert_eq!(
        UserId::from_uuid_str("01234567-89ab-cdef-0123-456789abcdeg"),
        None
    );
    assert_eq!(
        UserId::from_uuid_str("01234567x89ab-cdef-0123-456789abcdef"),
        None
    );
}
