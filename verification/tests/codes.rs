//! Scenario tests for the root decoder: the concrete codes, error cases and
//! round trips of each kind the library distinguishes.

use iso10962_types::equity;
use iso10962_types::Code;
use iso10962_types::Error;
use iso10962_types::Form;
use iso10962_types::CFI_LENGTH;

#[test]
fn decode_common_share() {
    let code = Code::from_bytes(b"ESVUFB").unwrap();
    assert!(code.is_equity());
    match code {
        Code::Equity(equity::Group::Common(a)) => {
            assert_eq!(a.voting_right, equity::VotingRight::Voting);
            assert_eq!(a.ownership, equity::Ownership::Free);
            assert_eq!(a.payment_status, equity::PaymentStatus::Fully);
            assert_eq!(a.form, Form::Bearer);
        },
        other => panic!("wrong decode: {other:?}"),
    }
    assert_eq!(code.to_bytes(), *b"ESVUFB");
}

#[test]
fn decode_all_undefined_attributes() {
    let code = Code::from_bytes(b"ESXXXX").unwrap();
    match code {
        Code::Equity(equity::Group::Common(a)) => {
            assert_eq!(a.voting_right, equity::VotingRight::Undefined);
            assert!(a.voting_right.is_undefined());
            assert_eq!(a.ownership, equity::Ownership::Undefined);
            assert_eq!(a.payment_status, equity::PaymentStatus::Undefined);
            assert_eq!(a.form, Form::Undefined);
            assert!(a.form.is_undefined());
        },
        other => panic!("wrong decode: {other:?}"),
    }
    assert_eq!(code.to_bytes(), *b"ESXXXX");
}

#[test]
fn short_input_is_invalid_length() {
    assert_eq!(Code::from_bytes(b"ES"), Err(Error::InvalidLength));
}

#[test]
fn empty_and_long_inputs_are_invalid_length() {
    assert_eq!(Code::from_bytes(b""), Err(Error::InvalidLength));
    assert_eq!(Code::from_bytes(b"ESVUF"), Err(Error::InvalidLength));
    assert_eq!(Code::from_bytes(b"ESVUFBB"), Err(Error::InvalidLength));
    assert_eq!(CFI_LENGTH, 6);
}

#[test]
fn unknown_group_tag_is_invalid_group() {
    assert_eq!(Code::from_bytes(b"EZVUFB"), Err(Error::InvalidGroup(b'Z')));
}

#[test]
fn unknown_attribute_byte_is_invalid_attribute() {
    assert_eq!(Code::from_bytes(b"ESVUF9"), Err(Error::InvalidAttribute(5, b'9')));
}

#[test]
fn unknown_category_tag_is_invalid_category() {
    assert_eq!(Code::from_bytes(b"QSVUFB"), Err(Error::InvalidCategory(b'Q')));
}

#[test]
fn length_gate_comes_before_category_check() {
    // 'Q' is not a category tag, but a two-byte input still reports length.
    assert_eq!(Code::from_bytes(b"QZ"), Err(Error::InvalidLength));
}

#[test]
fn category_check_comes_before_group_check() {
    // Both byte 0 and byte 1 are illegal; the category is reported.
    assert_eq!(Code::from_bytes(b"QZVUF9"), Err(Error::InvalidCategory(b'Q')));
}

#[test]
fn group_check_comes_before_attribute_check() {
    // Both byte 1 and byte 5 are illegal; the group is reported.
    assert_eq!(Code::from_bytes(b"EZVUF9"), Err(Error::InvalidGroup(b'Z')));
}

#[test]
fn attributes_are_checked_in_ascending_position_order() {
    assert_eq!(Code::from_bytes(b"ES9U99"), Err(Error::InvalidAttribute(2, b'9')));
    assert_eq!(Code::from_bytes(b"ESV999"), Err(Error::InvalidAttribute(3, b'9')));
    assert_eq!(Code::from_bytes(b"ESVU99"), Err(Error::InvalidAttribute(4, b'9')));
}

#[test]
fn lowercase_letters_are_rejected() {
    assert_eq!(Code::from_bytes(b"esVUFB"), Err(Error::InvalidCategory(b'e')));
    assert_eq!(Code::from_bytes(b"EsVUFB"), Err(Error::InvalidGroup(b's')));
    assert_eq!(Code::from_bytes(b"ESvUFB"), Err(Error::InvalidAttribute(2, b'v')));
    assert_eq!(Code::from_bytes(b"ESVUFb"), Err(Error::InvalidAttribute(5, b'b')));
}

#[test]
fn undefined_substitution_preserves_success() {
    let base = *b"ESVUFB";
    for pos in 2..6 {
        let mut bytes = base;
        bytes[pos] = b'X';
        let code = Code::from_bytes(&bytes).unwrap();
        assert_eq!(code.to_bytes(), bytes);
    }
}

#[test]
fn single_tag_categories_decode_on_tag_alone() {
    assert_eq!(Code::from_bytes(b"HXXXXX"), Ok(Code::UnlistedOption));
    assert_eq!(Code::from_bytes(b"IXXXXX"), Ok(Code::Spot));
    assert_eq!(Code::from_bytes(b"JXXXXX"), Ok(Code::Forward));
    assert_eq!(Code::from_bytes(b"KXXXXX"), Ok(Code::Strategy));
    assert_eq!(Code::from_bytes(b"LXXXXX"), Ok(Code::Financing));
    assert_eq!(Code::from_bytes(b"TXXXXX"), Ok(Code::Referential));
    assert_eq!(Code::from_bytes(b"MXXXXX"), Ok(Code::Misc));
}

#[test]
fn single_tag_categories_do_not_validate_trailing_bytes() {
    // Preserved behaviour: bytes 1-5 of a single-tag category are not
    // inspected, and re-encoding yields the canonical placeholder.
    let code = Code::from_bytes(b"HABCDE").unwrap();
    assert_eq!(code, Code::UnlistedOption);
    assert_eq!(code.to_bytes(), *b"HXXXXX");
}

#[test]
fn single_tag_encodings_round_trip() {
    for code in [
        Code::UnlistedOption,
        Code::Spot,
        Code::Forward,
        Code::Strategy,
        Code::Financing,
        Code::Referential,
        Code::Misc,
    ] {
        assert_eq!(Code::from_bytes(&code.to_bytes()), Ok(code));
    }
}

#[test]
fn category_predicates_match_their_variant() {
    let cases: [(&[u8; 6], fn(&Code) -> bool); 14] = [
        (b"ESVUFB", Code::is_equity),
        (b"DBFTFB", Code::is_debt),
        (b"CICIRS", Code::is_civ),
        (b"RAXXXB", Code::is_entitlement),
        (b"OCESPS", Code::is_listed_option),
        (b"FFSXSX", Code::is_future),
        (b"SRXXXX", Code::is_swap),
        (b"HXXXXX", Code::is_unlisted_option),
        (b"IXXXXX", Code::is_spot),
        (b"JXXXXX", Code::is_forward),
        (b"KXXXXX", Code::is_strategy),
        (b"LXXXXX", Code::is_financing),
        (b"TXXXXX", Code::is_referential),
        (b"MXXXXX", Code::is_misc),
    ];
    for (bytes, predicate) in cases {
        let code = Code::from_bytes(bytes).unwrap();
        assert!(predicate(&code), "predicate failed for {bytes:?}");
        let mut hits = 0;
        for (_, other) in cases {
            if other(&code) {
                hits += 1;
            }
        }
        assert_eq!(hits, 1, "exactly one predicate must hold for {bytes:?}");
    }
}
