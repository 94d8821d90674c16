//! Closed-alphabet tests: sweeps over every possible byte value confirm
//! that each attribute position accepts exactly its documented enumeration
//! plus `X`, and nothing else.

use iso10962_types::equity;
use iso10962_types::Code;
use iso10962_types::Error;
use iso10962_types::Form;
use iso10962_types::Attr;
use iso10962_types::AttrPos;
use iso10962_types::CfiGroup;
use iso10962_types::NotApplicable;

#[test]
fn voting_right_alphabet_is_closed() {
    for b in 0..=255u8 {
        let r = equity::VotingRight::from_byte(b, 2);
        if b"VNREX".contains(&b) {
            assert!(r.is_ok(), "byte {b} must be accepted");
        } else {
            assert_eq!(r, Err(Error::InvalidAttribute(2, b)));
        }
    }
}

#[test]
fn form_alphabet_is_closed() {
    for b in 0..=255u8 {
        let r = Form::from_byte(b, 5);
        if b"BRNMX".contains(&b) {
            assert!(r.is_ok(), "byte {b} must be accepted");
        } else {
            assert_eq!(r, Err(Error::InvalidAttribute(5, b)));
        }
    }
}

#[test]
fn not_applicable_accepts_only_x() {
    for b in 0..=255u8 {
        let r = NotApplicable::from_byte(b, 4);
        if b == b'X' {
            assert_eq!(r, Ok(NotApplicable::Undefined));
        } else {
            assert_eq!(r, Err(Error::InvalidAttribute(4, b)));
        }
    }
}

#[test]
fn common_share_position_two_alphabet_is_closed() {
    // Through the public decoder: position 2 of an `ES` code accepts
    // exactly the voting-right alphabet.
    for b in 0..=255u8 {
        let bytes = [b'E', b'S', b, b'X', b'X', b'X'];
        let r = Code::from_bytes(&bytes);
        if b"VNREX".contains(&b) {
            assert!(r.is_ok(), "byte {b} must be accepted");
        } else {
            assert_eq!(r, Err(Error::InvalidAttribute(2, b)));
        }
    }
}

#[test]
fn attribute_bytes_map_to_unique_members() {
    // Every accepted byte decodes to a member that encodes back to the
    // same byte.
    for b in b"VNREX" {
        let a = equity::VotingRight::from_byte(*b, 2).unwrap();
        assert_eq!(a.to_byte(), *b);
    }
    for b in b"BRNMX" {
        let a = Form::from_byte(*b, 5).unwrap();
        assert_eq!(a.to_byte(), *b);
    }
}

#[test]
fn undefined_comes_only_from_x() {
    // Invalid input is never coerced to `Undefined`: any byte outside the
    // alphabet is an error, and only the literal `X` decodes to it.
    assert_eq!(equity::VotingRight::from_byte(b'X', 2), Ok(equity::VotingRight::Undefined));
    assert_eq!(equity::VotingRight::from_byte(b'x', 2), Err(Error::InvalidAttribute(2, b'x')));
    assert_eq!(equity::VotingRight::from_byte(b' ', 2), Err(Error::InvalidAttribute(2, b' ')));
    assert_eq!(equity::VotingRight::from_byte(0, 2), Err(Error::InvalidAttribute(2, 0)));
}

#[test]
fn equity_group_tags_are_exactly_the_documented_set() {
    for b in 0..=255u8 {
        let bytes = [b'E', b, b'X', b'X', b'X', b'X'];
        let r = Code::from_bytes(&bytes);
        if b"SPCFLDYRVUM".contains(&b) {
            assert!(r.is_ok(), "group tag {b} must be accepted");
        } else {
            assert_eq!(r, Err(Error::InvalidGroup(b)));
        }
    }
}

#[test]
fn category_tags_are_exactly_the_documented_set() {
    for b in 0..=255u8 {
        let bytes = [b, b'S', b'X', b'X', b'X', b'X'];
        let r = Code::from_bytes(&bytes);
        if b"EDCROFSHIJKLTM".contains(&b) {
            // A legal category tag never reports `InvalidCategory`; whether
            // the rest decodes depends on that category's group tags.
            assert!(
                !matches!(r, Err(Error::InvalidCategory(_))),
                "category tag {b} must be recognized"
            );
        } else {
            assert_eq!(r, Err(Error::InvalidCategory(b)));
        }
    }
}

#[test]
fn attribute_traits_parse_by_fixed_position() {
    assert_eq!(
        <equity::VotingRight as Attr>::from_code_byte(b'V'),
        Ok(equity::VotingRight::Voting)
    );
    assert_eq!(
        <equity::VotingRight as Attr>::from_code_byte(b'9'),
        Err(Error::InvalidAttribute(0, b'9'))
    );
    assert_eq!(
        <equity::VotingRight as AttrPos<2>>::from_cfi_bytes(b"ESVUFB"),
        Ok(equity::VotingRight::Voting)
    );
    assert_eq!(
        <Form as AttrPos<5>>::from_cfi_bytes(b"ES"),
        Err(Error::InvalidLength)
    );
    // A rejected byte is reported at its own position, not at 0.
    assert_eq!(
        <equity::VotingRight as AttrPos<2>>::from_cfi_bytes(b"ES9UFB"),
        Err(Error::InvalidAttribute(2, b'9'))
    );
    assert_eq!(
        <Form as AttrPos<5>>::from_cfi_bytes(b"ESVUF9"),
        Err(Error::InvalidAttribute(5, b'9'))
    );

    let group = equity::CommonAttributes::from_bytes(b"ESVUFB").unwrap();
    assert_eq!(group.attr1(), equity::VotingRight::Voting);
    assert_eq!(group.attr2(), equity::Ownership::Free);
    assert_eq!(group.attr3(), equity::PaymentStatus::Fully);
    assert_eq!(group.attr4(), Form::Bearer);
    assert_eq!(equity::CommonAttributes::from_cfi_bytes(b"ESVUFB"), Ok(group));
}

#[test]
fn member_predicates_reflect_the_stored_tag() {
    let a = equity::VotingRight::from_byte(b'V', 2).unwrap();
    assert!(a.is_voting());
    assert!(!a.is_non_voting());
    assert!(!a.is_undefined());

    let f = Form::from_byte(b'N', 5).unwrap();
    assert!(f.is_bearer_registered());
    assert!(!f.is_bearer());
    assert!(!f.is_registered());
    assert!(!f.is_other());

    let u = equity::PaymentStatus::from_byte(b'X', 4).unwrap();
    assert!(u.is_undefined());
    assert!(!u.is_fully());
}
