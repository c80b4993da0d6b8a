//! Tests for the subject identifier codec, cross-checked against the uuid
//! crate's canonical printing.

use pnar_core::subject::{format_subject, parse_subject, SubjectId};

#[test]
fn printing_matches_the_uuid_crate() {
    for raw in [
        0u128,
        1,
        0xffff_ffff_ffff_ffff_ffff_ffff_ffff_ffff,
        0x0123_4567_89ab_cdef_0123_4567_89ab_cdef,
        0x550e_8400_e29b_41d4_a716_4466_5544_0000,
    ] {
        let ours = format_subject(&SubjectId::new(raw));
        let theirs = uuid::Uuid::from_u128(raw).to_string();
        assert_eq!(ours, theirs);
    }
}

#[test]
fn printing_then_parsing_returns_the_identifier() {
    for raw in [0u128, 42, u128::MAX, 0x550e_8400_e29b_41d4_a716_4466_5544_0000] {
        let id = SubjectId::new(raw);
        assert_eq!(parse_subject(&format_subject(&id)), Some(id));
    }
}

#[test]
fn parsing_accepts_exactly_the_canonical_form() {
    assert_eq!(
        parse_subject("550e8400-e29b-41d4-a716-446655440000"),
        Some(SubjectId::new(0x550e_8400_e29b_41d4_a716_4466_5544_0000))
    );
    // wrong length
    assert_eq!(parse_subject(""), None);
    assert_eq!(parse_subject("550e8400-e29b-41d4-a716-44665544000"), None);
    assert_eq!(parse_subject("550e8400-e29b-41d4-a716-4466554400000"), None);
    // hyphen out of place
    assert_eq!(parse_subject("550e8400e-29b-41d4-a716-446655440000"), None);
    // a non-hex character
    assert_eq!(parse_subject("550e8400-e29b-41d4-a716-44665544000g"), None);
    // only the canonical lowercase spelling parses
    assert_eq!(parse_subject("550E8400-E29B-41D4-A716-446655440000"), None);
}
