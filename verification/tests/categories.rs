//! Per-category decoding tests: one realistic code per structured category,
//! a systematic all-`X` sweep over every group of every category, and the
//! rejection of an unknown group tag in each category.

use iso10962_types::civ;
use iso10962_types::equity;
use iso10962_types::debt;
use iso10962_types::futures;
use iso10962_types::options;
use iso10962_types::rights;
use iso10962_types::swaps;
use iso10962_types::Code;
use iso10962_types::Error;
use iso10962_types::Form;
use iso10962_types::Standardized;

#[test]
fn decode_fixed_rate_government_bond() {
    let code = Code::from_bytes(b"DBFTFB").unwrap();
    match code {
        Code::Debt(debt::Debt::Bond(a)) => {
            assert_eq!(a.kind, debt::InterestInKindOrCash::FixedRate);
            assert_eq!(a.guarantee, debt::Guarantee::Government);
            assert_eq!(a.redemption, debt::Redemption::FixedMaturity);
            assert_eq!(a.form, Form::Bearer);
        },
        other => panic!("wrong decode: {other:?}"),
    }
    assert!(code.is_debt());
    assert_eq!(code.to_bytes(), *b"DBFTFB");
}

#[test]
fn decode_standard_investment_fund() {
    let code = Code::from_bytes(b"CICIRS").unwrap();
    match code {
        Code::Civ(civ::Civ::Standard(a)) => {
            assert_eq!(a.closed_or_open, civ::ClosedOrOpen::Closed);
            assert_eq!(a.distribution, civ::Distribution::Income);
            assert_eq!(a.assets, civ::Assets::RealEstate);
            assert_eq!(a.security_kind, civ::KindAndRestrictions::Shares);
        },
        other => panic!("wrong decode: {other:?}"),
    }
    assert!(code.is_civ());
    assert_eq!(code.to_bytes(), *b"CICIRS");
}

#[test]
fn decode_allotment_right() {
    let code = Code::from_bytes(b"RAXXXB").unwrap();
    match code {
        Code::Right(rights::Right::Allotment(a)) => {
            assert_eq!(a.form, Form::Bearer);
        },
        other => panic!("wrong decode: {other:?}"),
    }
    assert!(code.is_entitlement());
    assert_eq!(code.to_bytes(), *b"RAXXXB");
}

#[test]
fn decode_european_call_option() {
    let code = Code::from_bytes(b"OCESPS").unwrap();
    match code {
        Code::ListedOption(options::Listed::Call(a)) => {
            assert_eq!(a.exercise_style, options::ExerciseStyle::European);
            assert_eq!(a.underlying, options::Underlying::Stock);
            assert_eq!(a.delivery, options::Delivery::Physical);
            assert_eq!(a.standardized, Standardized::Standardized);
        },
        other => panic!("wrong decode: {other:?}"),
    }
    assert!(code.is_listed_option());
    assert_eq!(code.to_bytes(), *b"OCESPS");
}

#[test]
fn decode_stock_future() {
    let code = Code::from_bytes(b"FFSXSX").unwrap();
    match code {
        Code::Future(futures::Future::Financial(a)) => {
            assert_eq!(a.underlying, futures::UnderlyingFinancial::Stock);
            assert_eq!(a.delivery, futures::Delivery::Undefined);
            assert_eq!(a.standardized, Standardized::Standardized);
        },
        other => panic!("wrong decode: {other:?}"),
    }
    assert!(code.is_future());
    assert_eq!(code.to_bytes(), *b"FFSXSX");
}

#[test]
fn decode_rates_swap() {
    let code = Code::from_bytes(b"SRXXXX").unwrap();
    match code {
        Code::Swap(swaps::Swap::Rate(a)) => {
            assert_eq!(a.underlying, swaps::RateUnderlying::Undefined);
            assert_eq!(a.notional, swaps::Notional::Undefined);
        },
        other => panic!("wrong decode: {other:?}"),
    }
    assert!(code.is_swap());
    assert_eq!(code.to_bytes(), *b"SRXXXX");
}

#[test]
fn every_group_of_every_category_accepts_all_undefined() {
    // `X` is legal at every attribute position of every schema, so the code
    // `<category><group>XXXX` must decode and round-trip for every group.
    let categories: [(u8, &[u8]); 7] = [
        (b'E', b"SPCFLDYRVUM"),
        (b'D', b"BCWTYSEGANDM"),
        (b'C', b"IHBESFPM"),
        (b'R', b"ASPWFDM"),
        (b'O', b"CPM"),
        (b'F', b"FC"),
        (b'S', b"RTECFM"),
    ];
    for (cat, tags) in categories {
        for tag in tags.iter().copied() {
            let bytes = [cat, tag, b'X', b'X', b'X', b'X'];
            let code = Code::from_bytes(&bytes)
                .unwrap_or_else(|e| panic!("{cat}/{tag} rejected: {e:?}"));
            assert_eq!(code.to_bytes(), bytes);
        }
    }
}

#[test]
fn unknown_group_tag_is_rejected_in_every_category() {
    // `Z` is not a group tag in any category's schema.
    for cat in *b"EDCROFS" {
        let bytes = [cat, b'Z', b'X', b'X', b'X', b'X'];
        assert_eq!(Code::from_bytes(&bytes), Err(Error::InvalidGroup(b'Z')));
    }
}

#[test]
fn group_predicates_match_their_variant() {
    let common = match Code::from_bytes(b"ESXXXX").unwrap() {
        Code::Equity(group) => group,
        other => panic!("wrong decode: {other:?}"),
    };
    assert!(common.is_common());
    assert!(!common.is_preferred());
    assert!(!common.is_unit());

    let unit = match Code::from_bytes(b"EUXXXX").unwrap() {
        Code::Equity(group) => group,
        other => panic!("wrong decode: {other:?}"),
    };
    assert!(unit.is_unit());
    assert!(!unit.is_common());

    let preference = match Code::from_bytes(b"ERXXXX").unwrap() {
        Code::Equity(group) => group,
        other => panic!("wrong decode: {other:?}"),
    };
    assert!(preference.is_preference());
    assert!(!preference.is_preference_convertible());

    let bond = match Code::from_bytes(b"DBXXXX").unwrap() {
        Code::Debt(group) => group,
        other => panic!("wrong decode: {other:?}"),
    };
    assert!(bond.is_bond());
    assert!(!bond.is_municipal());
}

#[test]
fn depository_receipt_attribute_error_carries_position() {
    // Position 3 of an equity depository receipt takes the
    // redemption/conversion alphabet; `Z` lies outside it.
    assert_eq!(Code::from_bytes(b"EDSZFB"), Err(Error::InvalidAttribute(3, b'Z')));
}

#[test]
fn structured_equity_uses_its_own_alphabets() {
    let code = Code::from_bytes(b"EYADFM").unwrap();
    match code {
        Code::Equity(equity::Group::Structured(a)) => {
            assert_eq!(a.kind, equity::Kind::Tracker);
            assert_eq!(a.distribution, equity::Distribution::Dividend);
            assert_eq!(a.repayment, equity::Repayment::Cash);
            assert_eq!(a.underlying, equity::Underlying::Other);
        },
        other => panic!("wrong decode: {other:?}"),
    }
    assert_eq!(code.to_bytes(), *b"EYADFM");
}

#[test]
fn decode_credit_default_swap() {
    let code = Code::from_bytes(b"SCUCCC").unwrap();
    match code {
        Code::Swap(swaps::Swap::Credit(a)) => {
            assert_eq!(a.underlying, swaps::CreditUnderlying::Single);
            assert_eq!(a.payout, swaps::CreditPayout::CreditDefault);
            assert_eq!(a.issuer, swaps::CreditIssuer::Corporate);
            assert_eq!(a.delivery, swaps::CreditDelivery::Cash);
        },
        other => panic!("wrong decode: {other:?}"),
    }
    assert_eq!(code.to_bytes(), *b"SCUCCC");
}

#[test]
fn decode_depository_receipt_on_bonds() {
    // The depository debt group binds a different attribute layout:
    // dependency, interest, guarantee, redemption.
    let code = Code::from_bytes(b"DDBFTF").unwrap();
    match code {
        Code::Debt(debt::Debt::Depository(a)) => {
            assert_eq!(a.dependency, debt::Dependency::Bonds);
            assert_eq!(a.interest, debt::InterestOrCash::Fixed);
            assert_eq!(a.guarantee, debt::Guarantee::Government);
            assert_eq!(a.redemption, debt::Redemption::FixedMaturity);
        },
        other => panic!("wrong decode: {other:?}"),
    }
    assert_eq!(code.to_bytes(), *b"DDBFTF");
}

#[test]
fn decode_mini_future_right() {
    let code = Code::from_bytes(b"RFSTCA").unwrap();
    match code {
        Code::Right(rights::Right::MiniFuture(a)) => {
            assert_eq!(a.asset, rights::FutureAsset::Equity);
            assert_eq!(a.barrier, rights::Barrier::Underlying);
            assert_eq!(a.long_short, rights::LongShort::Long);
            assert_eq!(a.exercise_style, rights::ExerciseStyle::American);
        },
        other => panic!("wrong decode: {other:?}"),
    }
    assert_eq!(code.to_bytes(), *b"RFSTCA");
}

#[test]
fn decode_hedge_fund() {
    let code = Code::from_bytes(b"CHDXXX").unwrap();
    match code {
        Code::Civ(civ::Civ::Hedge(a)) => {
            assert_eq!(a.strategy, civ::Strategy::Directional);
        },
        other => panic!("wrong decode: {other:?}"),
    }
    assert_eq!(code.to_bytes(), *b"CHDXXX");
}

#[test]
fn decode_put_option() {
    let code = Code::from_bytes(b"OPAICN").unwrap();
    match code {
        Code::ListedOption(options::Listed::Put(a)) => {
            assert_eq!(a.exercise_style, options::ExerciseStyle::American);
            assert_eq!(a.underlying, options::Underlying::Index);
            assert_eq!(a.delivery, options::Delivery::Cash);
            assert_eq!(a.standardized, Standardized::NonStandardized);
        },
        other => panic!("wrong decode: {other:?}"),
    }
    assert_eq!(code.to_bytes(), *b"OPAICN");
}

#[test]
fn decode_commodity_future() {
    let code = Code::from_bytes(b"FCEXSX").unwrap();
    match code {
        Code::Future(futures::Future::Commodity(a)) => {
            assert_eq!(a.standardized, Standardized::Standardized);
        },
        other => panic!("wrong decode: {other:?}"),
    }
    assert_eq!(code.to_bytes(), *b"FCEXSX");
}
