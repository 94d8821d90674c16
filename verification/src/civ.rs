//! Collective investment vehicle category support.

use vstd::prelude::*;

use crate::Attr;
use crate::AttrPos;
use crate::CfiGroup;
use crate::Error;
use crate::NotApplicable;

verus! {

/// Collective Investment Vehicles.
#[derive(Clone, Copy, Debug, Eq, Hash, Ord, PartialEq, PartialOrd, Structural)]
pub enum Civ {
    /// `I`: Standard (vanilla) investment funds/mutual funds.
    Standard(Standard),
    /// `H`: Hedge funds.
    Hedge(Hedge),
    /// `B`: Real estate investment trust (REITs).
    Reit(Reit),
    /// `E`: Exchange traded funds (ETFs).
    Etf(Etf),
    /// `S`: Pension funds.
    Pension(Pension),
    /// `F`: Funds of funds.
    FundOfFunds(FundOfFunds),
    /// `P`: Private equity funds.
    PrivateEquity(PrivateEquity),
    /// `M`: Others (miscellaneous).
    Other(Other),
}

impl Civ {
    /// Whether `b` is one of this category's group tags.
    pub open spec fn spec_group_tag(b: u8) -> bool {
        b == 'I' as u8
            || b == 'H' as u8
            || b == 'B' as u8
            || b == 'E' as u8
            || b == 'S' as u8
            || b == 'F' as u8
            || b == 'P' as u8
            || b == 'M' as u8
    }

    /// The full six-byte encoding of this group, category tag included.
    pub open spec fn spec_bytes(self) -> Seq<u8> {
        match self {
            Civ::Standard(a) => seq!['C' as u8, 'I' as u8] + a.spec_bytes(),
            Civ::Hedge(a) => seq!['C' as u8, 'H' as u8] + a.spec_bytes(),
            Civ::Reit(a) => seq!['C' as u8, 'B' as u8] + a.spec_bytes(),
            Civ::Etf(a) => seq!['C' as u8, 'E' as u8] + a.spec_bytes(),
            Civ::Pension(a) => seq!['C' as u8, 'S' as u8] + a.spec_bytes(),
            Civ::FundOfFunds(a) => seq!['C' as u8, 'F' as u8] + a.spec_bytes(),
            Civ::PrivateEquity(a) => seq!['C' as u8, 'P' as u8] + a.spec_bytes(),
            Civ::Other(a) => seq!['C' as u8, 'M' as u8] + a.spec_bytes(),
        }
    }

    /// Whether byte `j` of `s` lies in the alphabet that this category's
    /// schema assigns to position `j`, for the group selected by byte 1.
    pub open spec fn spec_attr_ok(s: Seq<u8>, j: int) -> bool
        recommends
            s.len() == 6,
            2 <= j < 6,
    {
        if s[1] == 'I' as u8 {
            if j == 2 {
                ClosedOrOpen::spec_decode(s[2]) is Some
            } else if j == 3 {
                Distribution::spec_decode(s[3]) is Some
            } else if j == 4 {
                Assets::spec_decode(s[4]) is Some
            } else {
                KindAndRestrictions::spec_decode(s[5]) is Some
            }
        } else if s[1] == 'H' as u8 {
            if j == 2 {
                Strategy::spec_decode(s[2]) is Some
            } else if j == 3 {
                NotApplicable::spec_decode(s[3]) is Some
            } else if j == 4 {
                NotApplicable::spec_decode(s[4]) is Some
            } else {
                NotApplicable::spec_decode(s[5]) is Some
            }
        } else if s[1] == 'B' as u8 {
            if j == 2 {
                ClosedOrOpen::spec_decode(s[2]) is Some
            } else if j == 3 {
                Distribution::spec_decode(s[3]) is Some
            } else if j == 4 {
                NotApplicable::spec_decode(s[4]) is Some
            } else {
                KindAndRestrictions::spec_decode(s[5]) is Some
            }
        } else if s[1] == 'E' as u8 {
            if j == 2 {
                ClosedOrOpen::spec_decode(s[2]) is Some
            } else if j == 3 {
                Distribution::spec_decode(s[3]) is Some
            } else if j == 4 {
                Assets::spec_decode(s[4]) is Some
            } else {
                Kind::spec_decode(s[5]) is Some
            }
        } else if s[1] == 'S' as u8 {
            if j == 2 {
                ClosedOrOpen::spec_decode(s[2]) is Some
            } else if j == 3 {
                Style::spec_decode(s[3]) is Some
            } else if j == 4 {
                PensionKind::spec_decode(s[4]) is Some
            } else {
                Kind::spec_decode(s[5]) is Some
            }
        } else if s[1] == 'F' as u8 {
            if j == 2 {
                ClosedOrOpen::spec_decode(s[2]) is Some
            } else if j == 3 {
                Distribution::spec_decode(s[3]) is Some
            } else if j == 4 {
                FundsKind::spec_decode(s[4]) is Some
            } else {
                KindAndRestrictions::spec_decode(s[5]) is Some
            }
        } else if s[1] == 'P' as u8 {
            if j == 2 {
                ClosedOrOpen::spec_decode(s[2]) is Some
            } else if j == 3 {
                Distribution::spec_decode(s[3]) is Some
            } else if j == 4 {
                Assets::spec_decode(s[4]) is Some
            } else {
                KindAndRestrictions::spec_decode(s[5]) is Some
            }
        } else if s[1] == 'M' as u8 {
            if j == 2 {
                NotApplicable::spec_decode(s[2]) is Some
            } else if j == 3 {
                NotApplicable::spec_decode(s[3]) is Some
            } else if j == 4 {
                NotApplicable::spec_decode(s[4]) is Some
            } else {
                KindAndRestrictions::spec_decode(s[5]) is Some
            }
        } else {
            true
        }
    }

    /// The group encoded by the six-byte code `s`, selected by byte 1, or
    /// the error for the first invalid position at or after byte 1.
    pub open spec fn spec_decode(s: Seq<u8>) -> Result<Civ, Error> {
        if s.len() != 6 {
            Err(Error::InvalidLength)
        } else if s[1] == 'I' as u8 {
            match Standard::spec_decode(s) {
                Ok(a) => Ok(Civ::Standard(a)),
                Err(e) => Err(e),
            }
        } else if s[1] == 'H' as u8 {
            match Hedge::spec_decode(s) {
                Ok(a) => Ok(Civ::Hedge(a)),
                Err(e) => Err(e),
            }
        } else if s[1] == 'B' as u8 {
            match Reit::spec_decode(s) {
                Ok(a) => Ok(Civ::Reit(a)),
                Err(e) => Err(e),
            }
        } else if s[1] == 'E' as u8 {
            match Etf::spec_decode(s) {
                Ok(a) => Ok(Civ::Etf(a)),
                Err(e) => Err(e),
            }
        } else if s[1] == 'S' as u8 {
            match Pension::spec_decode(s) {
                Ok(a) => Ok(Civ::Pension(a)),
                Err(e) => Err(e),
            }
        } else if s[1] == 'F' as u8 {
            match FundOfFunds::spec_decode(s) {
                Ok(a) => Ok(Civ::FundOfFunds(a)),
                Err(e) => Err(e),
            }
        } else if s[1] == 'P' as u8 {
            match PrivateEquity::spec_decode(s) {
                Ok(a) => Ok(Civ::PrivateEquity(a)),
                Err(e) => Err(e),
            }
        } else if s[1] == 'M' as u8 {
            match Other::spec_decode(s) {
                Ok(a) => Ok(Civ::Other(a)),
                Err(e) => Err(e),
            }
        } else {
            Err(Error::InvalidGroup(s[1]))
        }
    }

    /// Decode the group and attribute portion of a six-byte code of this
    /// category, failing on the first invalid position.
    pub fn from_bytes(src: &[u8]) -> (r: Result<Civ, Error>)
        ensures
            r == Civ::spec_decode(src@),
    {
        if src.len() != 6 {
            return Err(Error::InvalidLength);
        }
        if src[1] == 'I' as u8 {
            match Standard::from_bytes(src) {
                Ok(a) => Ok(Civ::Standard(a)),
                Err(e) => Err(e),
            }
        } else if src[1] == 'H' as u8 {
            match Hedge::from_bytes(src) {
                Ok(a) => Ok(Civ::Hedge(a)),
                Err(e) => Err(e),
            }
        } else if src[1] == 'B' as u8 {
            match Reit::from_bytes(src) {
                Ok(a) => Ok(Civ::Reit(a)),
                Err(e) => Err(e),
            }
        } else if src[1] == 'E' as u8 {
            match Etf::from_bytes(src) {
                Ok(a) => Ok(Civ::Etf(a)),
                Err(e) => Err(e),
            }
        } else if src[1] == 'S' as u8 {
            match Pension::from_bytes(src) {
                Ok(a) => Ok(Civ::Pension(a)),
                Err(e) => Err(e),
            }
        } else if src[1] == 'F' as u8 {
            match FundOfFunds::from_bytes(src) {
                Ok(a) => Ok(Civ::FundOfFunds(a)),
                Err(e) => Err(e),
            }
        } else if src[1] == 'P' as u8 {
            match PrivateEquity::from_bytes(src) {
                Ok(a) => Ok(Civ::PrivateEquity(a)),
                Err(e) => Err(e),
            }
        } else if src[1] == 'M' as u8 {
            match Other::from_bytes(src) {
                Ok(a) => Ok(Civ::Other(a)),
                Err(e) => Err(e),
            }
        } else {
            Err(Error::InvalidGroup(src[1]))
        }
    }

    /// The full six-byte encoding of this group, category tag included.
    pub fn to_bytes(&self) -> (r: [u8; 6])
        ensures
            r@ == self.spec_bytes(),
    {
        match self {
            Civ::Standard(a) => {
                let t = a.to_bytes();
                let r = ['C' as u8, 'I' as u8, t[0], t[1], t[2], t[3]];
                proof {
                    assert(r@ =~= self.spec_bytes());
                }
                r
            },
            Civ::Hedge(a) => {
                let t = a.to_bytes();
                let r = ['C' as u8, 'H' as u8, t[0], t[1], t[2], t[3]];
                proof {
                    assert(r@ =~= self.spec_bytes());
                }
                r
            },
            Civ::Reit(a) => {
                let t = a.to_bytes();
                let r = ['C' as u8, 'B' as u8, t[0], t[1], t[2], t[3]];
                proof {
                    assert(r@ =~= self.spec_bytes());
                }
                r
            },
            Civ::Etf(a) => {
                let t = a.to_bytes();
                let r = ['C' as u8, 'E' as u8, t[0], t[1], t[2], t[3]];
                proof {
                    assert(r@ =~= self.spec_bytes());
                }
                r
            },
            Civ::Pension(a) => {
                let t = a.to_bytes();
                let r = ['C' as u8, 'S' as u8, t[0], t[1], t[2], t[3]];
                proof {
                    assert(r@ =~= self.spec_bytes());
                }
                r
            },
            Civ::FundOfFunds(a) => {
                let t = a.to_bytes();
                let r = ['C' as u8, 'F' as u8, t[0], t[1], t[2], t[3]];
                proof {
                    assert(r@ =~= self.spec_bytes());
                }
                r
            },
            Civ::PrivateEquity(a) => {
                let t = a.to_bytes();
                let r = ['C' as u8, 'P' as u8, t[0], t[1], t[2], t[3]];
                proof {
                    assert(r@ =~= self.spec_bytes());
                }
                r
            },
            Civ::Other(a) => {
                let t = a.to_bytes();
                let r = ['C' as u8, 'M' as u8, t[0], t[1], t[2], t[3]];
                proof {
                    assert(r@ =~= self.spec_bytes());
                }
                r
            },
        }
    }

    /// Whether the group value is [`Civ::Standard`].
    pub fn is_standard(&self) -> (r: bool)
        ensures
            r == (self is Standard),
    {
        matches!(self, Civ::Standard(_))
    }

    /// Whether the group value is [`Civ::Hedge`].
    pub fn is_hedge(&self) -> (r: bool)
        ensures
            r == (self is Hedge),
    {
        matches!(self, Civ::Hedge(_))
    }

    /// Whether the group value is [`Civ::Reit`].
    pub fn is_reit(&self) -> (r: bool)
        ensures
            r == (self is Reit),
    {
        matches!(self, Civ::Reit(_))
    }

    /// Whether the group value is [`Civ::Etf`].
    pub fn is_etf(&self) -> (r: bool)
        ensures
            r == (self is Etf),
    {
        matches!(self, Civ::Etf(_))
    }

    /// Whether the group value is [`Civ::Pension`].
    pub fn is_pension(&self) -> (r: bool)
        ensures
            r == (self is Pension),
    {
        matches!(self, Civ::Pension(_))
    }

    /// Whether the group value is [`Civ::FundOfFunds`].
    pub fn is_fund_of_funds(&self) -> (r: bool)
        ensures
            r == (self is FundOfFunds),
    {
        matches!(self, Civ::FundOfFunds(_))
    }

    /// Whether the group value is [`Civ::PrivateEquity`].
    pub fn is_private_equity(&self) -> (r: bool)
        ensures
            r == (self is PrivateEquity),
    {
        matches!(self, Civ::PrivateEquity(_))
    }

    /// Whether the group value is [`Civ::Other`].
    pub fn is_other(&self) -> (r: bool)
        ensures
            r == (self is Other),
    {
        matches!(self, Civ::Other(_))
    }
}

/// Standard (vanilla) investment funds/mutual funds.
#[derive(Clone, Copy, Debug, Eq, Hash, Ord, PartialEq, PartialOrd, Structural)]
pub struct Standard {
    /// Closed/open-end.
    pub closed_or_open: ClosedOrOpen,
    /// Distribution policy.
    pub distribution: Distribution,
    /// Assets.
    pub assets: Assets,
    /// Security type and investor restrictions.
    pub security_kind: KindAndRestrictions,
}

impl Standard {
    /// The four attribute bytes, in position order.
    pub open spec fn spec_bytes(self) -> Seq<u8> {
        seq![
            self.closed_or_open.spec_byte(),
            self.distribution.spec_byte(),
            self.assets.spec_byte(),
            self.security_kind.spec_byte(),
        ]
    }

    /// The value encoded in positions 2-5 of the six-byte code `s`, or
    /// the error for the first invalid position.
    pub open spec fn spec_decode(s: Seq<u8>) -> Result<Standard, Error> {
        if s.len() != 6 {
            Err(Error::InvalidLength)
        } else {
            match ClosedOrOpen::spec_decode(s[2]) {
                None => Err(Error::InvalidAttribute(2, s[2])),
                Some(closed_or_open) => match Distribution::spec_decode(s[3]) {
                    None => Err(Error::InvalidAttribute(3, s[3])),
                    Some(distribution) => match Assets::spec_decode(s[4]) {
                        None => Err(Error::InvalidAttribute(4, s[4])),
                        Some(assets) => match KindAndRestrictions::spec_decode(s[5]) {
                            None => Err(Error::InvalidAttribute(5, s[5])),
                            Some(security_kind) => Ok(Standard { closed_or_open, distribution, assets, security_kind }),
                        },
                    },
                },
            }
        }
    }

    /// Decode attribute positions 2-5 of a full six-byte code, failing
    /// on the first invalid position.
    pub fn from_bytes(src: &[u8]) -> (r: Result<Standard, Error>)
        ensures
            r == Standard::spec_decode(src@),
    {
        if src.len() != 6 {
            return Err(Error::InvalidLength);
        }
        let closed_or_open = match ClosedOrOpen::from_byte(src[2], 2) {
            Ok(a) => a,
            Err(e) => {
                return Err(e);
            },
        };
        let distribution = match Distribution::from_byte(src[3], 3) {
            Ok(a) => a,
            Err(e) => {
                return Err(e);
            },
        };
        let assets = match Assets::from_byte(src[4], 4) {
            Ok(a) => a,
            Err(e) => {
                return Err(e);
            },
        };
        let security_kind = match KindAndRestrictions::from_byte(src[5], 5) {
            Ok(a) => a,
            Err(e) => {
                return Err(e);
            },
        };
        Ok(Standard { closed_or_open, distribution, assets, security_kind })
    }

    /// The four attribute bytes, in position order.
    pub fn to_bytes(&self) -> (r: [u8; 4])
        ensures
            r@ == self.spec_bytes(),
    {
        let r = [
            self.closed_or_open.to_byte(),
            self.distribution.to_byte(),
            self.assets.to_byte(),
            self.security_kind.to_byte(),
        ];
        proof {
            assert(r@ =~= self.spec_bytes());
        }
        r
    }
}

/// Hedge funds.
#[derive(Clone, Copy, Debug, Eq, Hash, Ord, PartialEq, PartialOrd, Structural)]
pub struct Hedge {
    /// Investment strategy.
    pub strategy: Strategy,
    /// Not applicable/undefined.
    pub attr2: NotApplicable,
    /// Not applicable/undefined.
    pub attr3: NotApplicable,
    /// Not applicable/undefined.
    pub attr4: NotApplicable,
}

impl Hedge {
    /// The four attribute bytes, in position order.
    pub open spec fn spec_bytes(self) -> Seq<u8> {
        seq![
            self.strategy.spec_byte(),
            self.attr2.spec_byte(),
            self.attr3.spec_byte(),
            self.attr4.spec_byte(),
        ]
    }

    /// The value encoded in positions 2-5 of the six-byte code `s`, or
    /// the error for the first invalid position.
    pub open spec fn spec_decode(s: Seq<u8>) -> Result<Hedge, Error> {
        if s.len() != 6 {
            Err(Error::InvalidLength)
        } else {
            match Strategy::spec_decode(s[2]) {
                None => Err(Error::InvalidAttribute(2, s[2])),
                Some(strategy) => match NotApplicable::spec_decode(s[3]) {
                    None => Err(Error::InvalidAttribute(3, s[3])),
                    Some(attr2) => match NotApplicable::spec_decode(s[4]) {
                        None => Err(Error::InvalidAttribute(4, s[4])),
                        Some(attr3) => match NotApplicable::spec_decode(s[5]) {
                            None => Err(Error::InvalidAttribute(5, s[5])),
                            Some(attr4) => Ok(Hedge { strategy, attr2, attr3, attr4 }),
                        },
                    },
                },
            }
        }
    }

    /// Decode attribute positions 2-5 of a full six-byte code, failing
    /// on the first invalid position.
    pub fn from_bytes(src: &[u8]) -> (r: Result<Hedge, Error>)
        ensures
            r == Hedge::spec_decode(src@),
    {
        if src.len() != 6 {
            return Err(Error::InvalidLength);
        }
        let strategy = match Strategy::from_byte(src[2], 2) {
            Ok(a) => a,
            Err(e) => {
                return Err(e);
            },
        };
        let attr2 = match NotApplicable::from_byte(src[3], 3) {
            Ok(a) => a,
            Err(e) => {
                return Err(e);
            },
        };
        let attr3 = match NotApplicable::from_byte(src[4], 4) {
            Ok(a) => a,
            Err(e) => {
                return Err(e);
            },
        };
        let attr4 = match NotApplicable::from_byte(src[5], 5) {
            Ok(a) => a,
            Err(e) => {
                return Err(e);
            },
        };
        Ok(Hedge { strategy, attr2, attr3, attr4 })
    }

    /// The four attribute bytes, in position order.
    pub fn to_bytes(&self) -> (r: [u8; 4])
        ensures
            r@ == self.spec_bytes(),
    {
        let r = [
            self.strategy.to_byte(),
            self.attr2.to_byte(),
            self.attr3.to_byte(),
            self.attr4.to_byte(),
        ];
        proof {
            assert(r@ =~= self.spec_bytes());
        }
        r
    }
}

/// Real estate investment trust (REITs).
#[derive(Clone, Copy, Debug, Eq, Hash, Ord, PartialEq, PartialOrd, Structural)]
pub struct Reit {
    /// Closed/open-end.
    pub closed_or_open: ClosedOrOpen,
    /// Distribution policy.
    pub distribution: Distribution,
    /// Not applicable/undefined.
    pub undefined3: NotApplicable,
    /// Security type and investor restrictions.
    pub security_kind: KindAndRestrictions,
}

impl Reit {
    /// The four attribute bytes, in position order.
    pub open spec fn spec_bytes(self) -> Seq<u8> {
        seq![
            self.closed_or_open.spec_byte(),
            self.distribution.spec_byte(),
            self.undefined3.spec_byte(),
            self.security_kind.spec_byte(),
        ]
    }

    /// The value encoded in positions 2-5 of the six-byte code `s`, or
    /// the error for the first invalid position.
    pub open spec fn spec_decode(s: Seq<u8>) -> Result<Reit, Error> {
        if s.len() != 6 {
            Err(Error::InvalidLength)
        } else {
            match ClosedOrOpen::spec_decode(s[2]) {
                None => Err(Error::InvalidAttribute(2, s[2])),
                Some(closed_or_open) => match Distribution::spec_decode(s[3]) {
                    None => Err(Error::InvalidAttribute(3, s[3])),
                    Some(distribution) => match NotApplicable::spec_decode(s[4]) {
                        None => Err(Error::InvalidAttribute(4, s[4])),
                        Some(undefined3) => match KindAndRestrictions::spec_decode(s[5]) {
                            None => Err(Error::InvalidAttribute(5, s[5])),
                            Some(security_kind) => Ok(Reit { closed_or_open, distribution, undefined3, security_kind }),
                        },
                    },
                },
            }
        }
    }

    /// Decode attribute positions 2-5 of a full six-byte code, failing
    /// on the first invalid position.
    pub fn from_bytes(src: &[u8]) -> (r: Result<Reit, Error>)
        ensures
            r == Reit::spec_decode(src@),
    {
        if src.len() != 6 {
            return Err(Error::InvalidLength);
        }
        let closed_or_open = match ClosedOrOpen::from_byte(src[2], 2) {
            Ok(a) => a,
            Err(e) => {
                return Err(e);
            },
        };
        let distribution = match Distribution::from_byte(src[3], 3) {
            Ok(a) => a,
            Err(e) => {
                return Err(e);
            },
        };
        let undefined3 = match NotApplicable::from_byte(src[4], 4) {
            Ok(a) => a,
            Err(e) => {
                return Err(e);
            },
        };
        let security_kind = match KindAndRestrictions::from_byte(src[5], 5) {
            Ok(a) => a,
            Err(e) => {
                return Err(e);
            },
        };
        Ok(Reit { closed_or_open, distribution, undefined3, security_kind })
    }

    /// The four attribute bytes, in position order.
    pub fn to_bytes(&self) -> (r: [u8; 4])
        ensures
            r@ == self.spec_bytes(),
    {
        let r = [
            self.closed_or_open.to_byte(),
            self.distribution.to_byte(),
            self.undefined3.to_byte(),
            self.security_kind.to_byte(),
        ];
        proof {
            assert(r@ =~= self.spec_bytes());
        }
        r
    }
}

/// Exchange traded funds (ETFs).
#[derive(Clone, Copy, Debug, Eq, Hash, Ord, PartialEq, PartialOrd, Structural)]
pub struct Etf {
    /// Closed/open-end.
    pub closed_or_open: ClosedOrOpen,
    /// Distribution policy.
    pub distribution: Distribution,
    /// Assets.
    pub underlying: Assets,
    /// Security type.
    pub security_kind: Kind,
}

impl Etf {
    /// The four attribute bytes, in position order.
    pub open spec fn spec_bytes(self) -> Seq<u8> {
        seq![
            self.closed_or_open.spec_byte(),
            self.distribution.spec_byte(),
            self.underlying.spec_byte(),
            self.security_kind.spec_byte(),
        ]
    }

    /// The value encoded in positions 2-5 of the six-byte code `s`, or
    /// the error for the first invalid position.
    pub open spec fn spec_decode(s: Seq<u8>) -> Result<Etf, Error> {
        if s.len() != 6 {
            Err(Error::InvalidLength)
        } else {
            match ClosedOrOpen::spec_decode(s[2]) {
                None => Err(Error::InvalidAttribute(2, s[2])),
                Some(closed_or_open) => match Distribution::spec_decode(s[3]) {
                    None => Err(Error::InvalidAttribute(3, s[3])),
                    Some(distribution) => match Assets::spec_decode(s[4]) {
                        None => Err(Error::InvalidAttribute(4, s[4])),
                        Some(underlying) => match Kind::spec_decode(s[5]) {
                            None => Err(Error::InvalidAttribute(5, s[5])),
                            Some(security_kind) => Ok(Etf { closed_or_open, distribution, underlying, security_kind }),
                        },
                    },
                },
            }
        }
    }

    /// Decode attribute positions 2-5 of a full six-byte code, failing
    /// on the first invalid position.
    pub fn from_bytes(src: &[u8]) -> (r: Result<Etf, Error>)
        ensures
            r == Etf::spec_decode(src@),
    {
        if src.len() != 6 {
            return Err(Error::InvalidLength);
        }
        let closed_or_open = match ClosedOrOpen::from_byte(src[2], 2) {
            Ok(a) => a,
            Err(e) => {
                return Err(e);
            },
        };
        let distribution = match Distribution::from_byte(src[3], 3) {
            Ok(a) => a,
            Err(e) => {
                return Err(e);
            },
        };
        let underlying = match Assets::from_byte(src[4], 4) {
            Ok(a) => a,
            Err(e) => {
                return Err(e);
            },
        };
        let security_kind = match Kind::from_byte(src[5], 5) {
            Ok(a) => a,
            Err(e) => {
                return Err(e);
            },
        };
        Ok(Etf { closed_or_open, distribution, underlying, security_kind })
    }

    /// The four attribute bytes, in position order.
    pub fn to_bytes(&self) -> (r: [u8; 4])
        ensures
            r@ == self.spec_bytes(),
    {
        let r = [
            self.closed_or_open.to_byte(),
            self.distribution.to_byte(),
            self.underlying.to_byte(),
            self.security_kind.to_byte(),
        ];
        proof {
            assert(r@ =~= self.spec_bytes());
        }
        r
    }
}

/// Pension funds.
#[derive(Clone, Copy, Debug, Eq, Hash, Ord, PartialEq, PartialOrd, Structural)]
pub struct Pension {
    /// Closed/open.
    pub closed_or_open: ClosedOrOpen,
    /// Strategy/style.
    pub style: Style,
    /// Pension type.
    pub kind: PensionKind,
    /// Security type.
    pub security_kind: Kind,
}

impl Pension {
    /// The four attribute bytes, in position order.
    pub open spec fn spec_bytes(self) -> Seq<u8> {
        seq![
            self.closed_or_open.spec_byte(),
            self.style.spec_byte(),
            self.kind.spec_byte(),
            self.security_kind.spec_byte(),
        ]
    }

    /// The value encoded in positions 2-5 of the six-byte code `s`, or
    /// the error for the first invalid position.
    pub open spec fn spec_decode(s: Seq<u8>) -> Result<Pension, Error> {
        if s.len() != 6 {
            Err(Error::InvalidLength)
        } else {
            match ClosedOrOpen::spec_decode(s[2]) {
                None => Err(Error::InvalidAttribute(2, s[2])),
                Some(closed_or_open) => match Style::spec_decode(s[3]) {
                    None => Err(Error::InvalidAttribute(3, s[3])),
                    Some(style) => match PensionKind::spec_decode(s[4]) {
                        None => Err(Error::InvalidAttribute(4, s[4])),
                        Some(kind) => match Kind::spec_decode(s[5]) {
                            None => Err(Error::InvalidAttribute(5, s[5])),
                            Some(security_kind) => Ok(Pension { closed_or_open, style, kind, security_kind }),
                        },
                    },
                },
            }
        }
    }

    /// Decode attribute positions 2-5 of a full six-byte code, failing
    /// on the first invalid position.
    pub fn from_bytes(src: &[u8]) -> (r: Result<Pension, Error>)
        ensures
            r == Pension::spec_decode(src@),
    {
        if src.len() != 6 {
            return Err(Error::InvalidLength);
        }
        let closed_or_open = match ClosedOrOpen::from_byte(src[2], 2) {
            Ok(a) => a,
            Err(e) => {
                return Err(e);
            },
        };
        let style = match Style::from_byte(src[3], 3) {
            Ok(a) => a,
            Err(e) => {
                return Err(e);
            },
        };
        let kind = match PensionKind::from_byte(src[4], 4) {
            Ok(a) => a,
            Err(e) => {
                return Err(e);
            },
        };
        let security_kind = match Kind::from_byte(src[5], 5) {
            Ok(a) => a,
            Err(e) => {
                return Err(e);
            },
        };
        Ok(Pension { closed_or_open, style, kind, security_kind })
    }

    /// The four attribute bytes, in position order.
    pub fn to_bytes(&self) -> (r: [u8; 4])
        ensures
            r@ == self.spec_bytes(),
    {
        let r = [
            self.closed_or_open.to_byte(),
            self.style.to_byte(),
            self.kind.to_byte(),
            self.security_kind.to_byte(),
        ];
        proof {
            assert(r@ =~= self.spec_bytes());
        }
        r
    }
}

/// Funds of funds.
#[derive(Clone, Copy, Debug, Eq, Hash, Ord, PartialEq, PartialOrd, Structural)]
pub struct FundOfFunds {
    /// Closed/open-end.
    pub closed_or_open: ClosedOrOpen,
    /// Distribution policy.
    pub distribution: Distribution,
    /// Type of funds.
    pub funds_kind: FundsKind,
    /// Security type and investor restrictions.
    pub kind: KindAndRestrictions,
}

impl FundOfFunds {
    /// The four attribute bytes, in position order.
    pub open spec fn spec_bytes(self) -> Seq<u8> {
        seq![
            self.closed_or_open.spec_byte(),
            self.distribution.spec_byte(),
            self.funds_kind.spec_byte(),
            self.kind.spec_byte(),
        ]
    }

    /// The value encoded in positions 2-5 of the six-byte code `s`, or
    /// the error for the first invalid position.
    pub open spec fn spec_decode(s: Seq<u8>) -> Result<FundOfFunds, Error> {
        if s.len() != 6 {
            Err(Error::InvalidLength)
        } else {
            match ClosedOrOpen::spec_decode(s[2]) {
                None => Err(Error::InvalidAttribute(2, s[2])),
                Some(closed_or_open) => match Distribution::spec_decode(s[3]) {
                    None => Err(Error::InvalidAttribute(3, s[3])),
                    Some(distribution) => match FundsKind::spec_decode(s[4]) {
                        None => Err(Error::InvalidAttribute(4, s[4])),
                        Some(funds_kind) => match KindAndRestrictions::spec_decode(s[5]) {
                            None => Err(Error::InvalidAttribute(5, s[5])),
                            Some(kind) => Ok(FundOfFunds { closed_or_open, distribution, funds_kind, kind }),
                        },
                    },
                },
            }
        }
    }

    /// Decode attribute positions 2-5 of a full six-byte code, failing
    /// on the first invalid position.
    pub fn from_bytes(src: &[u8]) -> (r: Result<FundOfFunds, Error>)
        ensures
            r == FundOfFunds::spec_decode(src@),
    {
        if src.len() != 6 {
            return Err(Error::InvalidLength);
        }
        let closed_or_open = match ClosedOrOpen::from_byte(src[2], 2) {
            Ok(a) => a,
            Err(e) => {
                return Err(e);
            },
        };
        let distribution = match Distribution::from_byte(src[3], 3) {
            Ok(a) => a,
            Err(e) => {
                return Err(e);
            },
        };
        let funds_kind = match FundsKind::from_byte(src[4], 4) {
            Ok(a) => a,
            Err(e) => {
                return Err(e);
            },
        };
        let kind = match KindAndRestrictions::from_byte(src[5], 5) {
            Ok(a) => a,
            Err(e) => {
                return Err(e);
            },
        };
        Ok(FundOfFunds { closed_or_open, distribution, funds_kind, kind })
    }

    /// The four attribute bytes, in position order.
    pub fn to_bytes(&self) -> (r: [u8; 4])
        ensures
            r@ == self.spec_bytes(),
    {
        let r = [
            self.closed_or_open.to_byte(),
            self.distribution.to_byte(),
            self.funds_kind.to_byte(),
            self.kind.to_byte(),
        ];
        proof {
            assert(r@ =~= self.spec_bytes());
        }
        r
    }
}

/// Private equity funds.
#[derive(Clone, Copy, Debug, Eq, Hash, Ord, PartialEq, PartialOrd, Structural)]
pub struct PrivateEquity {
    /// Closed/open-end.
    pub closed_or_open: ClosedOrOpen,
    /// Distribution policy.
    pub distribution: Distribution,
    /// Assets.
    pub assets: Assets,
    /// Security type and investor restrictions.
    pub kind: KindAndRestrictions,
}

impl PrivateEquity {
    /// The four attribute bytes, in position order.
    pub open spec fn spec_bytes(self) -> Seq<u8> {
        seq![
            self.closed_or_open.spec_byte(),
            self.distribution.spec_byte(),
            self.assets.spec_byte(),
            self.kind.spec_byte(),
        ]
    }

    /// The value encoded in positions 2-5 of the six-byte code `s`, or
    /// the error for the first invalid position.
    pub open spec fn spec_decode(s: Seq<u8>) -> Result<PrivateEquity, Error> {
        if s.len() != 6 {
            Err(Error::InvalidLength)
        } else {
            match ClosedOrOpen::spec_decode(s[2]) {
                None => Err(Error::InvalidAttribute(2, s[2])),
                Some(closed_or_open) => match Distribution::spec_decode(s[3]) {
                    None => Err(Error::InvalidAttribute(3, s[3])),
                    Some(distribution) => match Assets::spec_decode(s[4]) {
                        None => Err(Error::InvalidAttribute(4, s[4])),
                        Some(assets) => match KindAndRestrictions::spec_decode(s[5]) {
                            None => Err(Error::InvalidAttribute(5, s[5])),
                            Some(kind) => Ok(PrivateEquity { closed_or_open, distribution, assets, kind }),
                        },
                    },
                },
            }
        }
    }

    /// Decode attribute positions 2-5 of a full six-byte code, failing
    /// on the first invalid position.
    pub fn from_bytes(src: &[u8]) -> (r: Result<PrivateEquity, Error>)
        ensures
            r == PrivateEquity::spec_decode(src@),
    {
        if src.len() != 6 {
            return Err(Error::InvalidLength);
        }
        let closed_or_open = match ClosedOrOpen::from_byte(src[2], 2) {
            Ok(a) => a,
            Err(e) => {
                return Err(e);
            },
        };
        let distribution = match Distribution::from_byte(src[3], 3) {
            Ok(a) => a,
            Err(e) => {
                return Err(e);
            },
        };
        let assets = match Assets::from_byte(src[4], 4) {
            Ok(a) => a,
            Err(e) => {
                return Err(e);
            },
        };
        let kind = match KindAndRestrictions::from_byte(src[5], 5) {
            Ok(a) => a,
            Err(e) => {
                return Err(e);
            },
        };
        Ok(PrivateEquity { closed_or_open, distribution, assets, kind })
    }

    /// The four attribute bytes, in position order.
    pub fn to_bytes(&self) -> (r: [u8; 4])
        ensures
            r@ == self.spec_bytes(),
    {
        let r = [
            self.closed_or_open.to_byte(),
            self.distribution.to_byte(),
            self.assets.to_byte(),
            self.kind.to_byte(),
        ];
        proof {
            assert(r@ =~= self.spec_bytes());
        }
        r
    }
}

/// Others (miscellaneous).
#[derive(Clone, Copy, Debug, Eq, Hash, Ord, PartialEq, PartialOrd, Structural)]
pub struct Other {
    /// Not applicable/undefined.
    pub undefined1: NotApplicable,
    /// Not applicable/undefined.
    pub undefined2: NotApplicable,
    /// Not applicable/undefined.
    pub undefined3: NotApplicable,
    /// Security type and investor restrictions.
    pub kind: KindAndRestrictions,
}

impl Other {
    /// The four attribute bytes, in position order.
    pub open spec fn spec_bytes(self) -> Seq<u8> {
        seq![
            self.undefined1.spec_byte(),
            self.undefined2.spec_byte(),
            self.undefined3.spec_byte(),
            self.kind.spec_byte(),
        ]
    }

    /// The value encoded in positions 2-5 of the six-byte code `s`, or
    /// the error for the first invalid position.
    pub open spec fn spec_decode(s: Seq<u8>) -> Result<Other, Error> {
        if s.len() != 6 {
            Err(Error::InvalidLength)
        } else {
            match NotApplicable::spec_decode(s[2]) {
                None => Err(Error::InvalidAttribute(2, s[2])),
                Some(undefined1) => match NotApplicable::spec_decode(s[3]) {
                    None => Err(Error::InvalidAttribute(3, s[3])),
                    Some(undefined2) => match NotApplicable::spec_decode(s[4]) {
                        None => Err(Error::InvalidAttribute(4, s[4])),
                        Some(undefined3) => match KindAndRestrictions::spec_decode(s[5]) {
                            None => Err(Error::InvalidAttribute(5, s[5])),
                            Some(kind) => Ok(Other { undefined1, undefined2, undefined3, kind }),
                        },
                    },
                },
            }
        }
    }

    /// Decode attribute positions 2-5 of a full six-byte code, failing
    /// on the first invalid position.
    pub fn from_bytes(src: &[u8]) -> (r: Result<Other, Error>)
        ensures
            r == Other::spec_decode(src@),
    {
        if src.len() != 6 {
            return Err(Error::InvalidLength);
        }
        let undefined1 = match NotApplicable::from_byte(src[2], 2) {
            Ok(a) => a,
            Err(e) => {
                return Err(e);
            },
        };
        let undefined2 = match NotApplicable::from_byte(src[3], 3) {
            Ok(a) => a,
            Err(e) => {
                return Err(e);
            },
        };
        let undefined3 = match NotApplicable::from_byte(src[4], 4) {
            Ok(a) => a,
            Err(e) => {
                return Err(e);
            },
        };
        let kind = match KindAndRestrictions::from_byte(src[5], 5) {
            Ok(a) => a,
            Err(e) => {
                return Err(e);
            },
        };
        Ok(Other { undefined1, undefined2, undefined3, kind })
    }

    /// The four attribute bytes, in position order.
    pub fn to_bytes(&self) -> (r: [u8; 4])
        ensures
            r@ == self.spec_bytes(),
    {
        let r = [
            self.undefined1.to_byte(),
            self.undefined2.to_byte(),
            self.undefined3.to_byte(),
            self.kind.to_byte(),
        ];
        proof {
            assert(r@ =~= self.spec_bytes());
        }
        r
    }
}

/// Closed/open-end.
#[derive(Clone, Copy, Debug, Eq, Hash, Ord, PartialEq, PartialOrd, Structural)]
pub enum ClosedOrOpen {
    /// `C`: Closed-end.
    Closed,
    /// `O`: Open-end.
    Open,
    /// `M`: Others (miscellaneous).
    Others,
    /// `X`: Not applicable or undefined.
    Undefined,
}

impl ClosedOrOpen {
    /// The code character assigned to this value.
    pub open spec fn spec_byte(self) -> u8 {
        match self {
            ClosedOrOpen::Closed => 'C' as u8,
            ClosedOrOpen::Open => 'O' as u8,
            ClosedOrOpen::Others => 'M' as u8,
            ClosedOrOpen::Undefined => 'X' as u8,
        }
    }

    /// The member encoded by `b`, if `b` lies in this attribute's alphabet.
    pub open spec fn spec_decode(b: u8) -> Option<ClosedOrOpen> {
        if b == 'C' as u8 {
            Some(ClosedOrOpen::Closed)
        } else if b == 'O' as u8 {
            Some(ClosedOrOpen::Open)
        } else if b == 'M' as u8 {
            Some(ClosedOrOpen::Others)
        } else if b == 'X' as u8 {
            Some(ClosedOrOpen::Undefined)
        } else {
            None
        }
    }

    /// Decode the attribute byte found at position `pos` of a code.
    pub fn from_byte(b: u8, pos: usize) -> (r: Result<ClosedOrOpen, Error>)
        ensures
            match ClosedOrOpen::spec_decode(b) {
                Some(a) => r == Ok::<ClosedOrOpen, Error>(a),
                None => r == Err::<ClosedOrOpen, Error>(Error::InvalidAttribute(pos, b)),
            },
    {
        if b == 'C' as u8 {
            Ok(ClosedOrOpen::Closed)
        } else if b == 'O' as u8 {
            Ok(ClosedOrOpen::Open)
        } else if b == 'M' as u8 {
            Ok(ClosedOrOpen::Others)
        } else if b == 'X' as u8 {
            Ok(ClosedOrOpen::Undefined)
        } else {
            Err(Error::InvalidAttribute(pos, b))
        }
    }

    /// The byte this value encodes to; the inverse of decoding.
    pub fn to_byte(&self) -> (r: u8)
        ensures
            r == self.spec_byte(),
    {
        match self {
            ClosedOrOpen::Closed => 'C' as u8,
            ClosedOrOpen::Open => 'O' as u8,
            ClosedOrOpen::Others => 'M' as u8,
            ClosedOrOpen::Undefined => 'X' as u8,
        }
    }

    /// Check if this value is [`ClosedOrOpen::Closed`].
    pub fn is_closed(&self) -> (r: bool)
        ensures
            r == (self is Closed),
    {
        matches!(self, ClosedOrOpen::Closed)
    }

    /// Check if this value is [`ClosedOrOpen::Open`].
    pub fn is_open(&self) -> (r: bool)
        ensures
            r == (self is Open),
    {
        matches!(self, ClosedOrOpen::Open)
    }

    /// Check if this value is [`ClosedOrOpen::Others`].
    pub fn is_others(&self) -> (r: bool)
        ensures
            r == (self is Others),
    {
        matches!(self, ClosedOrOpen::Others)
    }

    /// Check if this value is [`ClosedOrOpen::Undefined`].
    pub fn is_undefined(&self) -> (r: bool)
        ensures
            r == (self is Undefined),
    {
        matches!(self, ClosedOrOpen::Undefined)
    }
}

/// Distribution policy.
#[derive(Clone, Copy, Debug, Eq, Hash, Ord, PartialEq, PartialOrd, Structural)]
pub enum Distribution {
    /// `I`: Income funds.
    Income,
    /// `G`: Accumulation funds.
    Accumulation,
    /// `J`: Mixed funds.
    Mixed,
    /// `X`: Not applicable or undefined.
    Undefined,
}

impl Distribution {
    /// The code character assigned to this value.
    pub open spec fn spec_byte(self) -> u8 {
        match self {
            Distribution::Income => 'I' as u8,
            Distribution::Accumulation => 'G' as u8,
            Distribution::Mixed => 'J' as u8,
            Distribution::Undefined => 'X' as u8,
        }
    }

    /// The member encoded by `b`, if `b` lies in this attribute's alphabet.
    pub open spec fn spec_decode(b: u8) -> Option<Distribution> {
        if b == 'I' as u8 {
            Some(Distribution::Income)
        } else if b == 'G' as u8 {
            Some(Distribution::Accumulation)
        } else if b == 'J' as u8 {
            Some(Distribution::Mixed)
        } else if b == 'X' as u8 {
            Some(Distribution::Undefined)
        } else {
            None
        }
    }

    /// Decode the attribute byte found at position `pos` of a code.
    pub fn from_byte(b: u8, pos: usize) -> (r: Result<Distribution, Error>)
        ensures
            match Distribution::spec_decode(b) {
                Some(a) => r == Ok::<Distribution, Error>(a),
                None => r == Err::<Distribution, Error>(Error::InvalidAttribute(pos, b)),
            },
    {
        if b == 'I' as u8 {
            Ok(Distribution::Income)
        } else if b == 'G' as u8 {
            Ok(Distribution::Accumulation)
        } else if b == 'J' as u8 {
            Ok(Distribution::Mixed)
        } else if b == 'X' as u8 {
            Ok(Distribution::Undefined)
        } else {
            Err(Error::InvalidAttribute(pos, b))
        }
    }

    /// The byte this value encodes to; the inverse of decoding.
    pub fn to_byte(&self) -> (r: u8)
        ensures
            r == self.spec_byte(),
    {
        match self {
            Distribution::Income => 'I' as u8,
            Distribution::Accumulation => 'G' as u8,
            Distribution::Mixed => 'J' as u8,
            Distribution::Undefined => 'X' as u8,
        }
    }

    /// Check if this value is [`Distribution::Income`].
    pub fn is_income(&self) -> (r: bool)
        ensures
            r == (self is Income),
    {
        matches!(self, Distribution::Income)
    }

    /// Check if this value is [`Distribution::Accumulation`].
    pub fn is_accumulation(&self) -> (r: bool)
        ensures
            r == (self is Accumulation),
    {
        matches!(self, Distribution::Accumulation)
    }

    /// Check if this value is [`Distribution::Mixed`].
    pub fn is_mixed(&self) -> (r: bool)
        ensures
            r == (self is Mixed),
    {
        matches!(self, Distribution::Mixed)
    }

    /// Check if this value is [`Distribution::Undefined`].
    pub fn is_undefined(&self) -> (r: bool)
        ensures
            r == (self is Undefined),
    {
        matches!(self, Distribution::Undefined)
    }
}

/// Assets.
#[derive(Clone, Copy, Debug, Eq, Hash, Ord, PartialEq, PartialOrd, Structural)]
pub enum Assets {
    /// `R`: Real estate.
    RealEstate,
    /// `B`: Debt instruments.
    Debt,
    /// `E`: Equities.
    Equities,
    /// `V`: Convertible securities.
    Convertibles,
    /// `L`: Mixed.
    Mixed,
    /// `C`: Commodities.
    Commodities,
    /// `D`: Derivatives.
    Derivatives,
    /// `F`: Referential instruments excluding commodities.
    Referential,
    /// `K`: Credits.
    Credits,
    /// `M`: Others (miscellaneous).
    Others,
    /// `X`: Not applicable or undefined.
    Undefined,
}

impl Assets {
    /// The code character assigned to this value.
    pub open spec fn spec_byte(self) -> u8 {
        match self {
            Assets::RealEstate => 'R' as u8,
            Assets::Debt => 'B' as u8,
            Assets::Equities => 'E' as u8,
            Assets::Convertibles => 'V' as u8,
            Assets::Mixed => 'L' as u8,
            Assets::Commodities => 'C' as u8,
            Assets::Derivatives => 'D' as u8,
            Assets::Referential => 'F' as u8,
            Assets::Credits => 'K' as u8,
            Assets::Others => 'M' as u8,
            Assets::Undefined => 'X' as u8,
        }
    }

    /// The member encoded by `b`, if `b` lies in this attribute's alphabet.
    pub open spec fn spec_decode(b: u8) -> Option<Assets> {
        if b == 'R' as u8 {
            Some(Assets::RealEstate)
        } else if b == 'B' as u8 {
            Some(Assets::Debt)
        } else if b == 'E' as u8 {
            Some(Assets::Equities)
        } else if b == 'V' as u8 {
            Some(Assets::Convertibles)
        } else if b == 'L' as u8 {
            Some(Assets::Mixed)
        } else if b == 'C' as u8 {
            Some(Assets::Commodities)
        } else if b == 'D' as u8 {
            Some(Assets::Derivatives)
        } else if b == 'F' as u8 {
            Some(Assets::Referential)
        } else if b == 'K' as u8 {
            Some(Assets::Credits)
        } else if b == 'M' as u8 {
            Some(Assets::Others)
        } else if b == 'X' as u8 {
            Some(Assets::Undefined)
        } else {
            None
        }
    }

    /// Decode the attribute byte found at position `pos` of a code.
    pub fn from_byte(b: u8, pos: usize) -> (r: Result<Assets, Error>)
        ensures
            match Assets::spec_decode(b) {
                Some(a) => r == Ok::<Assets, Error>(a),
                None => r == Err::<Assets, Error>(Error::InvalidAttribute(pos, b)),
            },
    {
        if b == 'R' as u8 {
            Ok(Assets::RealEstate)
        } else if b == 'B' as u8 {
            Ok(Assets::Debt)
        } else if b == 'E' as u8 {
            Ok(Assets::Equities)
        } else if b == 'V' as u8 {
            Ok(Assets::Convertibles)
        } else if b == 'L' as u8 {
            Ok(Assets::Mixed)
        } else if b == 'C' as u8 {
            Ok(Assets::Commodities)
        } else if b == 'D' as u8 {
            Ok(Assets::Derivatives)
        } else if b == 'F' as u8 {
            Ok(Assets::Referential)
        } else if b == 'K' as u8 {
            Ok(Assets::Credits)
        } else if b == 'M' as u8 {
            Ok(Assets::Others)
        } else if b == 'X' as u8 {
            Ok(Assets::Undefined)
        } else {
            Err(Error::InvalidAttribute(pos, b))
        }
    }

    /// The byte this value encodes to; the inverse of decoding.
    pub fn to_byte(&self) -> (r: u8)
        ensures
            r == self.spec_byte(),
    {
        match self {
            Assets::RealEstate => 'R' as u8,
            Assets::Debt => 'B' as u8,
            Assets::Equities => 'E' as u8,
            Assets::Convertibles => 'V' as u8,
            Assets::Mixed => 'L' as u8,
            Assets::Commodities => 'C' as u8,
            Assets::Derivatives => 'D' as u8,
            Assets::Referential => 'F' as u8,
            Assets::Credits => 'K' as u8,
            Assets::Others => 'M' as u8,
            Assets::Undefined => 'X' as u8,
        }
    }

    /// Check if this value is [`Assets::RealEstate`].
    pub fn is_real_estate(&self) -> (r: bool)
        ensures
            r == (self is RealEstate),
    {
        matches!(self, Assets::RealEstate)
    }

    /// Check if this value is [`Assets::Debt`].
    pub fn is_debt(&self) -> (r: bool)
        ensures
            r == (self is Debt),
    {
        matches!(self, Assets::Debt)
    }

    /// Check if this value is [`Assets::Equities`].
    pub fn is_equities(&self) -> (r: bool)
        ensures
            r == (self is Equities),
    {
        matches!(self, Assets::Equities)
    }

    /// Check if this value is [`Assets::Convertibles`].
    pub fn is_convertibles(&self) -> (r: bool)
        ensures
            r == (self is Convertibles),
    {
        matches!(self, Assets::Convertibles)
    }

    /// Check if this value is [`Assets::Mixed`].
    pub fn is_mixed(&self) -> (r: bool)
        ensures
            r == (self is Mixed),
    {
        matches!(self, Assets::Mixed)
    }

    /// Check if this value is [`Assets::Commodities`].
    pub fn is_commodities(&self) -> (r: bool)
        ensures
            r == (self is Commodities),
    {
        matches!(self, Assets::Commodities)
    }

    /// Check if this value is [`Assets::Derivatives`].
    pub fn is_derivatives(&self) -> (r: bool)
        ensures
            r == (self is Derivatives),
    {
        matches!(self, Assets::Derivatives)
    }

    /// Check if this value is [`Assets::Referential`].
    pub fn is_referential(&self) -> (r: bool)
        ensures
            r == (self is Referential),
    {
        matches!(self, Assets::Referential)
    }

    /// Check if this value is [`Assets::Credits`].
    pub fn is_credits(&self) -> (r: bool)
        ensures
            r == (self is Credits),
    {
        matches!(self, Assets::Credits)
    }

    /// Check if this value is [`Assets::Others`].
    pub fn is_others(&self) -> (r: bool)
        ensures
            r == (self is Others),
    {
        matches!(self, Assets::Others)
    }

    /// Check if this value is [`Assets::Undefined`].
    pub fn is_undefined(&self) -> (r: bool)
        ensures
            r == (self is Undefined),
    {
        matches!(self, Assets::Undefined)
    }
}

/// Security type and investor restrictions.
#[derive(Clone, Copy, Debug, Eq, Hash, Ord, PartialEq, PartialOrd, Structural)]
pub enum KindAndRestrictions {
    /// `S`: Shares for either retail and/or qualified/institutional/professional investors.
    Shares,
    /// `Q`: Shares for Qualified/institutional/professional investors only.
    SharesForQualified,
    /// `U`: Units for retail and/or qualified/institutional/professional investors.
    Units,
    /// `Y`: Units for qualified/institutional/professional investors only.
    UnitsForQualified,
    /// `X`: Not applicable or undefined.
    Undefined,
}

impl KindAndRestrictions {
    /// The code character assigned to this value.
    pub open spec fn spec_byte(self) -> u8 {
        match self {
            KindAndRestrictions::Shares => 'S' as u8,
            KindAndRestrictions::SharesForQualified => 'Q' as u8,
            KindAndRestrictions::Units => 'U' as u8,
            KindAndRestrictions::UnitsForQualified => 'Y' as u8,
            KindAndRestrictions::Undefined => 'X' as u8,
        }
    }

    /// The member encoded by `b`, if `b` lies in this attribute's alphabet.
    pub open spec fn spec_decode(b: u8) -> Option<KindAndRestrictions> {
        if b == 'S' as u8 {
            Some(KindAndRestrictions::Shares)
        } else if b == 'Q' as u8 {
            Some(KindAndRestrictions::SharesForQualified)
        } else if b == 'U' as u8 {
            Some(KindAndRestrictions::Units)
        } else if b == 'Y' as u8 {
            Some(KindAndRestrictions::UnitsForQualified)
        } else if b == 'X' as u8 {
            Some(KindAndRestrictions::Undefined)
        } else {
            None
        }
    }

    /// Decode the attribute byte found at position `pos` of a code.
    pub fn from_byte(b: u8, pos: usize) -> (r: Result<KindAndRestrictions, Error>)
        ensures
            match KindAndRestrictions::spec_decode(b) {
                Some(a) => r == Ok::<KindAndRestrictions, Error>(a),
                None => r == Err::<KindAndRestrictions, Error>(Error::InvalidAttribute(pos, b)),
            },
    {
        if b == 'S' as u8 {
            Ok(KindAndRestrictions::Shares)
        } else if b == 'Q' as u8 {
            Ok(KindAndRestrictions::SharesForQualified)
        } else if b == 'U' as u8 {
            Ok(KindAndRestrictions::Units)
        } else if b == 'Y' as u8 {
            Ok(KindAndRestrictions::UnitsForQualified)
        } else if b == 'X' as u8 {
            Ok(KindAndRestrictions::Undefined)
        } else {
            Err(Error::InvalidAttribute(pos, b))
        }
    }

    /// The byte this value encodes to; the inverse of decoding.
    pub fn to_byte(&self) -> (r: u8)
        ensures
            r == self.spec_byte(),
    {
        match self {
            KindAndRestrictions::Shares => 'S' as u8,
            KindAndRestrictions::SharesForQualified => 'Q' as u8,
            KindAndRestrictions::Units => 'U' as u8,
            KindAndRestrictions::UnitsForQualified => 'Y' as u8,
            KindAndRestrictions::Undefined => 'X' as u8,
        }
    }

    /// Check if this value is [`KindAndRestrictions::Shares`].
    pub fn is_shares(&self) -> (r: bool)
        ensures
            r == (self is Shares),
    {
        matches!(self, KindAndRestrictions::Shares)
    }

    /// Check if this value is [`KindAndRestrictions::SharesForQualified`].
    pub fn is_shares_for_qualified(&self) -> (r: bool)
        ensures
            r == (self is SharesForQualified),
    {
        matches!(self, KindAndRestrictions::SharesForQualified)
    }

    /// Check if this value is [`KindAndRestrictions::Units`].
    pub fn is_units(&self) -> (r: bool)
        ensures
            r == (self is Units),
    {
        matches!(self, KindAndRestrictions::Units)
    }

    /// Check if this value is [`KindAndRestrictions::UnitsForQualified`].
    pub fn is_units_for_qualified(&self) -> (r: bool)
        ensures
            r == (self is UnitsForQualified),
    {
        matches!(self, KindAndRestrictions::UnitsForQualified)
    }

    /// Check if this value is [`KindAndRestrictions::Undefined`].
    pub fn is_undefined(&self) -> (r: bool)
        ensures
            r == (self is Undefined),
    {
        matches!(self, KindAndRestrictions::Undefined)
    }
}

/// Investment strategy.
#[derive(Clone, Copy, Debug, Eq, Hash, Ord, PartialEq, PartialOrd, Structural)]
pub enum Strategy {
    /// `D`: Directional.
    Directional,
    /// `R`: Relative value.
    Relative,
    /// `S`: Security selection.
    Selection,
    /// `E`: Event-driven.
    EventDriven,
    /// `A`: Arbitrage.
    Arbitrage,
    /// `N`: Multi-strategy.
    Multi,
    /// `L`: Asset-based lending.
    Lending,
    /// `M`: Others (miscellaneous).
    Others,
    /// `X`: Not applicable or undefined.
    Undefined,
}

impl Strategy {
    /// The code character assigned to this value.
    pub open spec fn spec_byte(self) -> u8 {
        match self {
            Strategy::Directional => 'D' as u8,
            Strategy::Relative => 'R' as u8,
            Strategy::Selection => 'S' as u8,
            Strategy::EventDriven => 'E' as u8,
            Strategy::Arbitrage => 'A' as u8,
            Strategy::Multi => 'N' as u8,
            Strategy::Lending => 'L' as u8,
            Strategy::Others => 'M' as u8,
            Strategy::Undefined => 'X' as u8,
        }
    }

    /// The member encoded by `b`, if `b` lies in this attribute's alphabet.
    pub open spec fn spec_decode(b: u8) -> Option<Strategy> {
        if b == 'D' as u8 {
            Some(Strategy::Directional)
        } else if b == 'R' as u8 {
            Some(Strategy::Relative)
        } else if b == 'S' as u8 {
            Some(Strategy::Selection)
        } else if b == 'E' as u8 {
            Some(Strategy::EventDriven)
        } else if b == 'A' as u8 {
            Some(Strategy::Arbitrage)
        } else if b == 'N' as u8 {
            Some(Strategy::Multi)
        } else if b == 'L' as u8 {
            Some(Strategy::Lending)
        } else if b == 'M' as u8 {
            Some(Strategy::Others)
        } else if b == 'X' as u8 {
            Some(Strategy::Undefined)
        } else {
            None
        }
    }

    /// Decode the attribute byte found at position `pos` of a code.
    pub fn from_byte(b: u8, pos: usize) -> (r: Result<Strategy, Error>)
        ensures
            match Strategy::spec_decode(b) {
                Some(a) => r == Ok::<Strategy, Error>(a),
                None => r == Err::<Strategy, Error>(Error::InvalidAttribute(pos, b)),
            },
    {
        if b == 'D' as u8 {
            Ok(Strategy::Directional)
        } else if b == 'R' as u8 {
            Ok(Strategy::Relative)
        } else if b == 'S' as u8 {
            Ok(Strategy::Selection)
        } else if b == 'E' as u8 {
            Ok(Strategy::EventDriven)
        } else if b == 'A' as u8 {
            Ok(Strategy::Arbitrage)
        } else if b == 'N' as u8 {
            Ok(Strategy::Multi)
        } else if b == 'L' as u8 {
            Ok(Strategy::Lending)
        } else if b == 'M' as u8 {
            Ok(Strategy::Others)
        } else if b == 'X' as u8 {
            Ok(Strategy::Undefined)
        } else {
            Err(Error::InvalidAttribute(pos, b))
        }
    }

    /// The byte this value encodes to; the inverse of decoding.
    pub fn to_byte(&self) -> (r: u8)
        ensures
            r == self.spec_byte(),
    {
        match self {
            Strategy::Directional => 'D' as u8,
            Strategy::Relative => 'R' as u8,
            Strategy::Selection => 'S' as u8,
            Strategy::EventDriven => 'E' as u8,
            Strategy::Arbitrage => 'A' as u8,
            Strategy::Multi => 'N' as u8,
            Strategy::Lending => 'L' as u8,
            Strategy::Others => 'M' as u8,
            Strategy::Undefined => 'X' as u8,
        }
    }

    /// Check if this value is [`Strategy::Directional`].
    pub fn is_directional(&self) -> (r: bool)
        ensures
            r == (self is Directional),
    {
        matches!(self, Strategy::Directional)
    }

    /// Check if this value is [`Strategy::Relative`].
    pub fn is_relative(&self) -> (r: bool)
        ensures
            r == (self is Relative),
    {
        matches!(self, Strategy::Relative)
    }

    /// Check if this value is [`Strategy::Selection`].
    pub fn is_selection(&self) -> (r: bool)
        ensures
            r == (self is Selection),
    {
        matches!(self, Strategy::Selection)
    }

    /// Check if this value is [`Strategy::EventDriven`].
    pub fn is_event_driven(&self) -> (r: bool)
        ensures
            r == (self is EventDriven),
    {
        matches!(self, Strategy::EventDriven)
    }

    /// Check if this value is [`Strategy::Arbitrage`].
    pub fn is_arbitrage(&self) -> (r: bool)
        ensures
            r == (self is Arbitrage),
    {
        matches!(self, Strategy::Arbitrage)
    }

    /// Check if this value is [`Strategy::Multi`].
    pub fn is_multi(&self) -> (r: bool)
        ensures
            r == (self is Multi),
    {
        matches!(self, Strategy::Multi)
    }

    /// Check if this value is [`Strategy::Lending`].
    pub fn is_lending(&self) -> (r: bool)
        ensures
            r == (self is Lending),
    {
        matches!(self, Strategy::Lending)
    }

    /// Check if this value is [`Strategy::Others`].
    pub fn is_others(&self) -> (r: bool)
        ensures
            r == (self is Others),
    {
        matches!(self, Strategy::Others)
    }

    /// Check if this value is [`Strategy::Undefined`].
    pub fn is_undefined(&self) -> (r: bool)
        ensures
            r == (self is Undefined),
    {
        matches!(self, Strategy::Undefined)
    }
}

/// Security type.
#[derive(Clone, Copy, Debug, Eq, Hash, Ord, PartialEq, PartialOrd, Structural)]
pub enum Kind {
    /// `S`: Shares.
    Shares,
    /// `U`: Units.
    Units,
    /// `X`: Not applicable or undefined.
    Undefined,
}

impl Kind {
    /// The code character assigned to this value.
    pub open spec fn spec_byte(self) -> u8 {
        match self {
            Kind::Shares => 'S' as u8,
            Kind::Units => 'U' as u8,
            Kind::Undefined => 'X' as u8,
        }
    }

    /// The member encoded by `b`, if `b` lies in this attribute's alphabet.
    pub open spec fn spec_decode(b: u8) -> Option<Kind> {
        if b == 'S' as u8 {
            Some(Kind::Shares)
        } else if b == 'U' as u8 {
            Some(Kind::Units)
        } else if b == 'X' as u8 {
            Some(Kind::Undefined)
        } else {
            None
        }
    }

    /// Decode the attribute byte found at position `pos` of a code.
    pub fn from_byte(b: u8, pos: usize) -> (r: Result<Kind, Error>)
        ensures
            match Kind::spec_decode(b) {
                Some(a) => r == Ok::<Kind, Error>(a),
                None => r == Err::<Kind, Error>(Error::InvalidAttribute(pos, b)),
            },
    {
        if b == 'S' as u8 {
            Ok(Kind::Shares)
        } else if b == 'U' as u8 {
            Ok(Kind::Units)
        } else if b == 'X' as u8 {
            Ok(Kind::Undefined)
        } else {
            Err(Error::InvalidAttribute(pos, b))
        }
    }

    /// The byte this value encodes to; the inverse of decoding.
    pub fn to_byte(&self) -> (r: u8)
        ensures
            r == self.spec_byte(),
    {
        match self {
            Kind::Shares => 'S' as u8,
            Kind::Units => 'U' as u8,
            Kind::Undefined => 'X' as u8,
        }
    }

    /// Check if this value is [`Kind::Shares`].
    pub fn is_shares(&self) -> (r: bool)
        ensures
            r == (self is Shares),
    {
        matches!(self, Kind::Shares)
    }

    /// Check if this value is [`Kind::Units`].
    pub fn is_units(&self) -> (r: bool)
        ensures
            r == (self is Units),
    {
        matches!(self, Kind::Units)
    }

    /// Check if this value is [`Kind::Undefined`].
    pub fn is_undefined(&self) -> (r: bool)
        ensures
            r == (self is Undefined),
    {
        matches!(self, Kind::Undefined)
    }
}

/// Strategy/style.
#[derive(Clone, Copy, Debug, Eq, Hash, Ord, PartialEq, PartialOrd, Structural)]
pub enum Style {
    /// `B`: Balanced/conservative.
    Balanced,
    /// `G`: Growth.
    Growth,
    /// `L`: Life style.
    Lifestyle,
    /// `M`: Others (miscellaneous).
    Other,
    /// `X`: Not applicable or undefined.
    Undefined,
}

impl Style {
    /// The code character assigned to this value.
    pub open spec fn spec_byte(self) -> u8 {
        match self {
            Style::Balanced => 'B' as u8,
            Style::Growth => 'G' as u8,
            Style::Lifestyle => 'L' as u8,
            Style::Other => 'M' as u8,
            Style::Undefined => 'X' as u8,
        }
    }

    /// The member encoded by `b`, if `b` lies in this attribute's alphabet.
    pub open spec fn spec_decode(b: u8) -> Option<Style> {
        if b == 'B' as u8 {
            Some(Style::Balanced)
        } else if b == 'G' as u8 {
            Some(Style::Growth)
        } else if b == 'L' as u8 {
            Some(Style::Lifestyle)
        } else if b == 'M' as u8 {
            Some(Style::Other)
        } else if b == 'X' as u8 {
            Some(Style::Undefined)
        } else {
            None
        }
    }

    /// Decode the attribute byte found at position `pos` of a code.
    pub fn from_byte(b: u8, pos: usize) -> (r: Result<Style, Error>)
        ensures
            match Style::spec_decode(b) {
                Some(a) => r == Ok::<Style, Error>(a),
                None => r == Err::<Style, Error>(Error::InvalidAttribute(pos, b)),
            },
    {
        if b == 'B' as u8 {
            Ok(Style::Balanced)
        } else if b == 'G' as u8 {
            Ok(Style::Growth)
        } else if b == 'L' as u8 {
            Ok(Style::Lifestyle)
        } else if b == 'M' as u8 {
            Ok(Style::Other)
        } else if b == 'X' as u8 {
            Ok(Style::Undefined)
        } else {
            Err(Error::InvalidAttribute(pos, b))
        }
    }

    /// The byte this value encodes to; the inverse of decoding.
    pub fn to_byte(&self) -> (r: u8)
        ensures
            r == self.spec_byte(),
    {
        match self {
            Style::Balanced => 'B' as u8,
            Style::Growth => 'G' as u8,
            Style::Lifestyle => 'L' as u8,
            Style::Other => 'M' as u8,
            Style::Undefined => 'X' as u8,
        }
    }

    /// Check if this value is [`Style::Balanced`].
    pub fn is_balanced(&self) -> (r: bool)
        ensures
            r == (self is Balanced),
    {
        matches!(self, Style::Balanced)
    }

    /// Check if this value is [`Style::Growth`].
    pub fn is_growth(&self) -> (r: bool)
        ensures
            r == (self is Growth),
    {
        matches!(self, Style::Growth)
    }

    /// Check if this value is [`Style::Lifestyle`].
    pub fn is_lifestyle(&self) -> (r: bool)
        ensures
            r == (self is Lifestyle),
    {
        matches!(self, Style::Lifestyle)
    }

    /// Check if this value is [`Style::Other`].
    pub fn is_other(&self) -> (r: bool)
        ensures
            r == (self is Other),
    {
        matches!(self, Style::Other)
    }

    /// Check if this value is [`Style::Undefined`].
    pub fn is_undefined(&self) -> (r: bool)
        ensures
            r == (self is Undefined),
    {
        matches!(self, Style::Undefined)
    }
}

/// Pension type.
#[derive(Clone, Copy, Debug, Eq, Hash, Ord, PartialEq, PartialOrd, Structural)]
pub enum PensionKind {
    /// `R`: Defined benefit.
    Benefit,
    /// `B`: Defined contribution.
    Contribution,
    /// `M`: Others (miscellaneous).
    Other,
    /// `X`: Not applicable or undefined.
    Undefined,
}

impl PensionKind {
    /// The code character assigned to this value.
    pub open spec fn spec_byte(self) -> u8 {
        match self {
            PensionKind::Benefit => 'R' as u8,
            PensionKind::Contribution => 'B' as u8,
            PensionKind::Other => 'M' as u8,
            PensionKind::Undefined => 'X' as u8,
        }
    }

    /// The member encoded by `b`, if `b` lies in this attribute's alphabet.
    pub open spec fn spec_decode(b: u8) -> Option<PensionKind> {
        if b == 'R' as u8 {
            Some(PensionKind::Benefit)
        } else if b == 'B' as u8 {
            Some(PensionKind::Contribution)
        } else if b == 'M' as u8 {
            Some(PensionKind::Other)
        } else if b == 'X' as u8 {
            Some(PensionKind::Undefined)
        } else {
            None
        }
    }

    /// Decode the attribute byte found at position `pos` of a code.
    pub fn from_byte(b: u8, pos: usize) -> (r: Result<PensionKind, Error>)
        ensures
            match PensionKind::spec_decode(b) {
                Some(a) => r == Ok::<PensionKind, Error>(a),
                None => r == Err::<PensionKind, Error>(Error::InvalidAttribute(pos, b)),
            },
    {
        if b == 'R' as u8 {
            Ok(PensionKind::Benefit)
        } else if b == 'B' as u8 {
            Ok(PensionKind::Contribution)
        } else if b == 'M' as u8 {
            Ok(PensionKind::Other)
        } else if b == 'X' as u8 {
            Ok(PensionKind::Undefined)
        } else {
            Err(Error::InvalidAttribute(pos, b))
        }
    }

    /// The byte this value encodes to; the inverse of decoding.
    pub fn to_byte(&self) -> (r: u8)
        ensures
            r == self.spec_byte(),
    {
        match self {
            PensionKind::Benefit => 'R' as u8,
            PensionKind::Contribution => 'B' as u8,
            PensionKind::Other => 'M' as u8,
            PensionKind::Undefined => 'X' as u8,
        }
    }

    /// Check if this value is [`PensionKind::Benefit`].
    pub fn is_benefit(&self) -> (r: bool)
        ensures
            r == (self is Benefit),
    {
        matches!(self, PensionKind::Benefit)
    }

    /// Check if this value is [`PensionKind::Contribution`].
    pub fn is_contribution(&self) -> (r: bool)
        ensures
            r == (self is Contribution),
    {
        matches!(self, PensionKind::Contribution)
    }

    /// Check if this value is [`PensionKind::Other`].
    pub fn is_other(&self) -> (r: bool)
        ensures
            r == (self is Other),
    {
        matches!(self, PensionKind::Other)
    }

    /// Check if this value is [`PensionKind::Undefined`].
    pub fn is_undefined(&self) -> (r: bool)
        ensures
            r == (self is Undefined),
    {
        matches!(self, PensionKind::Undefined)
    }
}

/// Type of funds.
#[derive(Clone, Copy, Debug, Eq, Hash, Ord, PartialEq, PartialOrd, Structural)]
pub enum FundsKind {
    /// `I`: Standard (vanilla) investment funds/mutual funds.
    Standard,
    /// `H`: Hedge funds.
    Hedge,
    /// `B`: REITs.
    Reit,
    /// `E`: ETFs.
    Etf,
    /// `P`: Private equity funds.
    PrivateEquity,
    /// `M`: Others (miscellaneous).
    Other,
    /// `X`: Not applicable or undefined.
    Undefined,
}

impl FundsKind {
    /// The code character assigned to this value.
    pub open spec fn spec_byte(self) -> u8 {
        match self {
            FundsKind::Standard => 'I' as u8,
            FundsKind::Hedge => 'H' as u8,
            FundsKind::Reit => 'B' as u8,
            FundsKind::Etf => 'E' as u8,
            FundsKind::PrivateEquity => 'P' as u8,
            FundsKind::Other => 'M' as u8,
            FundsKind::Undefined => 'X' as u8,
        }
    }

    /// The member encoded by `b`, if `b` lies in this attribute's alphabet.
    pub open spec fn spec_decode(b: u8) -> Option<FundsKind> {
        if b == 'I' as u8 {
            Some(FundsKind::Standard)
        } else if b == 'H' as u8 {
            Some(FundsKind::Hedge)
        } else if b == 'B' as u8 {
            Some(FundsKind::Reit)
        } else if b == 'E' as u8 {
            Some(FundsKind::Etf)
        } else if b == 'P' as u8 {
            Some(FundsKind::PrivateEquity)
        } else if b == 'M' as u8 {
            Some(FundsKind::Other)
        } else if b == 'X' as u8 {
            Some(FundsKind::Undefined)
        } else {
            None
        }
    }

    /// Decode the attribute byte found at position `pos` of a code.
    pub fn from_byte(b: u8, pos: usize) -> (r: Result<FundsKind, Error>)
        ensures
            match FundsKind::spec_decode(b) {
                Some(a) => r == Ok::<FundsKind, Error>(a),
                None => r == Err::<FundsKind, Error>(Error::InvalidAttribute(pos, b)),
            },
    {
        if b == 'I' as u8 {
            Ok(FundsKind::Standard)
        } else if b == 'H' as u8 {
            Ok(FundsKind::Hedge)
        } else if b == 'B' as u8 {
            Ok(FundsKind::Reit)
        } else if b == 'E' as u8 {
            Ok(FundsKind::Etf)
        } else if b == 'P' as u8 {
            Ok(FundsKind::PrivateEquity)
        } else if b == 'M' as u8 {
            Ok(FundsKind::Other)
        } else if b == 'X' as u8 {
            Ok(FundsKind::Undefined)
        } else {
            Err(Error::InvalidAttribute(pos, b))
        }
    }

    /// The byte this value encodes to; the inverse of decoding.
    pub fn to_byte(&self) -> (r: u8)
        ensures
            r == self.spec_byte(),
    {
        match self {
            FundsKind::Standard => 'I' as u8,
            FundsKind::Hedge => 'H' as u8,
            FundsKind::Reit => 'B' as u8,
            FundsKind::Etf => 'E' as u8,
            FundsKind::PrivateEquity => 'P' as u8,
            FundsKind::Other => 'M' as u8,
            FundsKind::Undefined => 'X' as u8,
        }
    }

    /// Check if this value is [`FundsKind::Standard`].
    pub fn is_standard(&self) -> (r: bool)
        ensures
            r == (self is Standard),
    {
        matches!(self, FundsKind::Standard)
    }

    /// Check if this value is [`FundsKind::Hedge`].
    pub fn is_hedge(&self) -> (r: bool)
        ensures
            r == (self is Hedge),
    {
        matches!(self, FundsKind::Hedge)
    }

    /// Check if this value is [`FundsKind::Reit`].
    pub fn is_reit(&self) -> (r: bool)
        ensures
            r == (self is Reit),
    {
        matches!(self, FundsKind::Reit)
    }

    /// Check if this value is [`FundsKind::Etf`].
    pub fn is_etf(&self) -> (r: bool)
        ensures
            r == (self is Etf),
    {
        matches!(self, FundsKind::Etf)
    }

    /// Check if this value is [`FundsKind::PrivateEquity`].
    pub fn is_private_equity(&self) -> (r: bool)
        ensures
            r == (self is PrivateEquity),
    {
        matches!(self, FundsKind::PrivateEquity)
    }

    /// Check if this value is [`FundsKind::Other`].
    pub fn is_other(&self) -> (r: bool)
        ensures
            r == (self is Other),
    {
        matches!(self, FundsKind::Other)
    }

    /// Check if this value is [`FundsKind::Undefined`].
    pub fn is_undefined(&self) -> (r: bool)
        ensures
            r == (self is Undefined),
    {
        matches!(self, FundsKind::Undefined)
    }
}

/// The encoding of a [`Civ::Standard`] value re-decodes to itself.
proof fn lemma_decode_encode_standard(a: Standard)
    ensures
        Civ::Standard(a).spec_bytes().len() == 6,
        Civ::Standard(a).spec_bytes()[0] == 'C' as u8,
        Civ::spec_decode(Civ::Standard(a).spec_bytes()) == Ok::<Civ, Error>(Civ::Standard(a)),
{
    let s = Civ::Standard(a).spec_bytes();
    assert(s.len() == 6);
    assert(s[1] == 'I' as u8);
    assert(s[2] == a.closed_or_open.spec_byte());
    assert(ClosedOrOpen::spec_decode(s[2]) == Some(a.closed_or_open));
    assert(s[3] == a.distribution.spec_byte());
    assert(Distribution::spec_decode(s[3]) == Some(a.distribution));
    assert(s[4] == a.assets.spec_byte());
    assert(Assets::spec_decode(s[4]) == Some(a.assets));
    assert(s[5] == a.security_kind.spec_byte());
    assert(KindAndRestrictions::spec_decode(s[5]) == Some(a.security_kind));
    assert(Standard::spec_decode(s) == Ok::<Standard, Error>(a));
}

/// The encoding of a [`Civ::Hedge`] value re-decodes to itself.
proof fn lemma_decode_encode_hedge(a: Hedge)
    ensures
        Civ::Hedge(a).spec_bytes().len() == 6,
        Civ::Hedge(a).spec_bytes()[0] == 'C' as u8,
        Civ::spec_decode(Civ::Hedge(a).spec_bytes()) == Ok::<Civ, Error>(Civ::Hedge(a)),
{
    let s = Civ::Hedge(a).spec_bytes();
    assert(s.len() == 6);
    assert(s[1] == 'H' as u8);
    assert(s[2] == a.strategy.spec_byte());
    assert(Strategy::spec_decode(s[2]) == Some(a.strategy));
    assert(s[3] == a.attr2.spec_byte());
    assert(NotApplicable::spec_decode(s[3]) == Some(a.attr2));
    assert(s[4] == a.attr3.spec_byte());
    assert(NotApplicable::spec_decode(s[4]) == Some(a.attr3));
    assert(s[5] == a.attr4.spec_byte());
    assert(NotApplicable::spec_decode(s[5]) == Some(a.attr4));
    assert(Hedge::spec_decode(s) == Ok::<Hedge, Error>(a));
}

/// The encoding of a [`Civ::Reit`] value re-decodes to itself.
proof fn lemma_decode_encode_reit(a: Reit)
    ensures
        Civ::Reit(a).spec_bytes().len() == 6,
        Civ::Reit(a).spec_bytes()[0] == 'C' as u8,
        Civ::spec_decode(Civ::Reit(a).spec_bytes()) == Ok::<Civ, Error>(Civ::Reit(a)),
{
    let s = Civ::Reit(a).spec_bytes();
    assert(s.len() == 6);
    assert(s[1] == 'B' as u8);
    assert(s[2] == a.closed_or_open.spec_byte());
    assert(ClosedOrOpen::spec_decode(s[2]) == Some(a.closed_or_open));
    assert(s[3] == a.distribution.spec_byte());
    assert(Distribution::spec_decode(s[3]) == Some(a.distribution));
    assert(s[4] == a.undefined3.spec_byte());
    assert(NotApplicable::spec_decode(s[4]) == Some(a.undefined3));
    assert(s[5] == a.security_kind.spec_byte());
    assert(KindAndRestrictions::spec_decode(s[5]) == Some(a.security_kind));
    assert(Reit::spec_decode(s) == Ok::<Reit, Error>(a));
}

/// The encoding of a [`Civ::Etf`] value re-decodes to itself.
proof fn lemma_decode_encode_etf(a: Etf)
    ensures
        Civ::Etf(a).spec_bytes().len() == 6,
        Civ::Etf(a).spec_bytes()[0] == 'C' as u8,
        Civ::spec_decode(Civ::Etf(a).spec_bytes()) == Ok::<Civ, Error>(Civ::Etf(a)),
{
    let s = Civ::Etf(a).spec_bytes();
    assert(s.len() == 6);
    assert(s[1] == 'E' as u8);
    assert(s[2] == a.closed_or_open.spec_byte());
    assert(ClosedOrOpen::spec_decode(s[2]) == Some(a.closed_or_open));
    assert(s[3] == a.distribution.spec_byte());
    assert(Distribution::spec_decode(s[3]) == Some(a.distribution));
    assert(s[4] == a.underlying.spec_byte());
    assert(Assets::spec_decode(s[4]) == Some(a.underlying));
    assert(s[5] == a.security_kind.spec_byte());
    assert(Kind::spec_decode(s[5]) == Some(a.security_kind));
    assert(Etf::spec_decode(s) == Ok::<Etf, Error>(a));
}

/// The encoding of a [`Civ::Pension`] value re-decodes to itself.
proof fn lemma_decode_encode_pension(a: Pension)
    ensures
        Civ::Pension(a).spec_bytes().len() == 6,
        Civ::Pension(a).spec_bytes()[0] == 'C' as u8,
        Civ::spec_decode(Civ::Pension(a).spec_bytes()) == Ok::<Civ, Error>(Civ::Pension(a)),
{
    let s = Civ::Pension(a).spec_bytes();
    assert(s.len() == 6);
    assert(s[1] == 'S' as u8);
    assert(s[2] == a.closed_or_open.spec_byte());
    assert(ClosedOrOpen::spec_decode(s[2]) == Some(a.closed_or_open));
    assert(s[3] == a.style.spec_byte());
    assert(Style::spec_decode(s[3]) == Some(a.style));
    assert(s[4] == a.kind.spec_byte());
    assert(PensionKind::spec_decode(s[4]) == Some(a.kind));
    assert(s[5] == a.security_kind.spec_byte());
    assert(Kind::spec_decode(s[5]) == Some(a.security_kind));
    assert(Pension::spec_decode(s) == Ok::<Pension, Error>(a));
}

/// The encoding of a [`Civ::FundOfFunds`] value re-decodes to itself.
proof fn lemma_decode_encode_fund_of_funds(a: FundOfFunds)
    ensures
        Civ::FundOfFunds(a).spec_bytes().len() == 6,
        Civ::FundOfFunds(a).spec_bytes()[0] == 'C' as u8,
        Civ::spec_decode(Civ::FundOfFunds(a).spec_bytes()) == Ok::<Civ, Error>(Civ::FundOfFunds(a)),
{
    let s = Civ::FundOfFunds(a).spec_bytes();
    assert(s.len() == 6);
    assert(s[1] == 'F' as u8);
    assert(s[2] == a.closed_or_open.spec_byte());
    assert(ClosedOrOpen::spec_decode(s[2]) == Some(a.closed_or_open));
    assert(s[3] == a.distribution.spec_byte());
    assert(Distribution::spec_decode(s[3]) == Some(a.distribution));
    assert(s[4] == a.funds_kind.spec_byte());
    assert(FundsKind::spec_decode(s[4]) == Some(a.funds_kind));
    assert(s[5] == a.kind.spec_byte());
    assert(KindAndRestrictions::spec_decode(s[5]) == Some(a.kind));
    assert(FundOfFunds::spec_decode(s) == Ok::<FundOfFunds, Error>(a));
}

/// The encoding of a [`Civ::PrivateEquity`] value re-decodes to itself.
proof fn lemma_decode_encode_private_equity(a: PrivateEquity)
    ensures
        Civ::PrivateEquity(a).spec_bytes().len() == 6,
        Civ::PrivateEquity(a).spec_bytes()[0] == 'C' as u8,
        Civ::spec_decode(Civ::PrivateEquity(a).spec_bytes()) == Ok::<Civ, Error>(Civ::PrivateEquity(a)),
{
    let s = Civ::PrivateEquity(a).spec_bytes();
    assert(s.len() == 6);
    assert(s[1] == 'P' as u8);
    assert(s[2] == a.closed_or_open.spec_byte());
    assert(ClosedOrOpen::spec_decode(s[2]) == Some(a.closed_or_open));
    assert(s[3] == a.distribution.spec_byte());
    assert(Distribution::spec_decode(s[3]) == Some(a.distribution));
    assert(s[4] == a.assets.spec_byte());
    assert(Assets::spec_decode(s[4]) == Some(a.assets));
    assert(s[5] == a.kind.spec_byte());
    assert(KindAndRestrictions::spec_decode(s[5]) == Some(a.kind));
    assert(PrivateEquity::spec_decode(s) == Ok::<PrivateEquity, Error>(a));
}

/// The encoding of a [`Civ::Other`] value re-decodes to itself.
proof fn lemma_decode_encode_other(a: Other)
    ensures
        Civ::Other(a).spec_bytes().len() == 6,
        Civ::Other(a).spec_bytes()[0] == 'C' as u8,
        Civ::spec_decode(Civ::Other(a).spec_bytes()) == Ok::<Civ, Error>(Civ::Other(a)),
{
    let s = Civ::Other(a).spec_bytes();
    assert(s.len() == 6);
    assert(s[1] == 'M' as u8);
    assert(s[2] == a.undefined1.spec_byte());
    assert(NotApplicable::spec_decode(s[2]) == Some(a.undefined1));
    assert(s[3] == a.undefined2.spec_byte());
    assert(NotApplicable::spec_decode(s[3]) == Some(a.undefined2));
    assert(s[4] == a.undefined3.spec_byte());
    assert(NotApplicable::spec_decode(s[4]) == Some(a.undefined3));
    assert(s[5] == a.kind.spec_byte());
    assert(KindAndRestrictions::spec_decode(s[5]) == Some(a.kind));
    assert(Other::spec_decode(s) == Ok::<Other, Error>(a));
}

/// Every collective investment vehicle group value re-decodes from its own encoding.
pub proof fn lemma_decode_encode(g: Civ)
    ensures
        g.spec_bytes().len() == 6,
        g.spec_bytes()[0] == 'C' as u8,
        Civ::spec_decode(g.spec_bytes()) == Ok::<Civ, Error>(g),
{
    match g {
        Civ::Standard(a) => lemma_decode_encode_standard(a),
        Civ::Hedge(a) => lemma_decode_encode_hedge(a),
        Civ::Reit(a) => lemma_decode_encode_reit(a),
        Civ::Etf(a) => lemma_decode_encode_etf(a),
        Civ::Pension(a) => lemma_decode_encode_pension(a),
        Civ::FundOfFunds(a) => lemma_decode_encode_fund_of_funds(a),
        Civ::PrivateEquity(a) => lemma_decode_encode_private_equity(a),
        Civ::Other(a) => lemma_decode_encode_other(a),
    }
}

/// Every collective investment vehicle code that decodes successfully re-encodes to the same
/// six bytes.
#[verifier::rlimit(50)]
pub proof fn lemma_encode_decode(s: Seq<u8>, g: Civ)
    requires
        Civ::spec_decode(s) == Ok::<Civ, Error>(g),
        s[0] == 'C' as u8,
    ensures
        g.spec_bytes() == s,
{
    if s[1] == 'I' as u8 {
        assert(g.spec_bytes() =~= s);
    } else if s[1] == 'H' as u8 {
        assert(g.spec_bytes() =~= s);
    } else if s[1] == 'B' as u8 {
        assert(g.spec_bytes() =~= s);
    } else if s[1] == 'E' as u8 {
        assert(g.spec_bytes() =~= s);
    } else if s[1] == 'S' as u8 {
        assert(g.spec_bytes() =~= s);
    } else if s[1] == 'F' as u8 {
        assert(g.spec_bytes() =~= s);
    } else if s[1] == 'P' as u8 {
        assert(g.spec_bytes() =~= s);
    } else if s[1] == 'M' as u8 {
        assert(g.spec_bytes() =~= s);
    } else {
    }
}

/// Substituting `X` at any attribute position of a collective investment vehicle code that
/// decodes successfully leaves a code that still decodes successfully.
pub proof fn lemma_undefined_universality(s: Seq<u8>, i: int)
    requires
        Civ::spec_decode(s) is Ok,
        2 <= i < 6,
    ensures
        Civ::spec_decode(s.update(i, 'X' as u8)) is Ok,
{
    let t = s.update(i, 'X' as u8);
    assert(t.len() == s.len());
    assert(t[1] == s[1]);
    assert(t[i] == 'X' as u8);
    assert(forall|j: int| 0 <= j < 6 && j != i ==> t[j] == s[j]);
}

/// A six-byte collective investment vehicle code whose byte 1 is not a group tag is rejected
/// with exactly that byte, whatever the remaining bytes hold.
pub proof fn lemma_invalid_group(s: Seq<u8>)
    requires
        s.len() == 6,
        !Civ::spec_group_tag(s[1]),
    ensures
        Civ::spec_decode(s) == Err::<Civ, Error>(Error::InvalidGroup(s[1])),
{
}

/// When the group tag is legal and position `i` holds the first attribute
/// byte outside its alphabet, decoding reports exactly that position.
pub proof fn lemma_first_invalid_attribute(s: Seq<u8>, i: int)
    requires
        s.len() == 6,
        Civ::spec_group_tag(s[1]),
        2 <= i < 6,
        forall|j: int| 2 <= j < i ==> Civ::spec_attr_ok(s, j),
        !Civ::spec_attr_ok(s, i),
    ensures
        Civ::spec_decode(s) == Err::<Civ, Error>(Error::InvalidAttribute(i as usize, s[i])),
{
    if i > 2 {
        assert(Civ::spec_attr_ok(s, 2));
    }
    if i > 3 {
        assert(Civ::spec_attr_ok(s, 3));
    }
    if i > 4 {
        assert(Civ::spec_attr_ok(s, 4));
    }
}

/// A six-byte collective investment vehicle code decodes successfully exactly when its group
/// tag and all four attribute bytes are legal.
pub proof fn lemma_ok_iff(s: Seq<u8>)
    requires
        s.len() == 6,
    ensures
        Civ::spec_decode(s) is Ok <==> (Civ::spec_group_tag(s[1])
            && (forall|j: int| 2 <= j < 6 ==> Civ::spec_attr_ok(s, j))),
{
    if Civ::spec_group_tag(s[1]) && (forall|j: int| 2 <= j < 6 ==> Civ::spec_attr_ok(s, j)) {
        assert(Civ::spec_attr_ok(s, 2));
        assert(Civ::spec_attr_ok(s, 3));
        assert(Civ::spec_attr_ok(s, 4));
        assert(Civ::spec_attr_ok(s, 5));
    }
    if Civ::spec_decode(s) is Ok {
        assert forall|j: int| 2 <= j < 6 implies Civ::spec_attr_ok(s, j) by {
        }
    }
}

impl Attr for ClosedOrOpen {
    open spec fn spec_decode_byte(b: u8) -> Option<ClosedOrOpen> {
        ClosedOrOpen::spec_decode(b)
    }

    fn from_code_byte(value: u8) -> (r: Result<ClosedOrOpen, Error>) {
        ClosedOrOpen::from_byte(value, 0)
    }
}

impl AttrPos<2> for ClosedOrOpen {
}

impl Attr for Distribution {
    open spec fn spec_decode_byte(b: u8) -> Option<Distribution> {
        Distribution::spec_decode(b)
    }

    fn from_code_byte(value: u8) -> (r: Result<Distribution, Error>) {
        Distribution::from_byte(value, 0)
    }
}

impl AttrPos<3> for Distribution {
}

impl Attr for Assets {
    open spec fn spec_decode_byte(b: u8) -> Option<Assets> {
        Assets::spec_decode(b)
    }

    fn from_code_byte(value: u8) -> (r: Result<Assets, Error>) {
        Assets::from_byte(value, 0)
    }
}

impl AttrPos<4> for Assets {
}

impl Attr for KindAndRestrictions {
    open spec fn spec_decode_byte(b: u8) -> Option<KindAndRestrictions> {
        KindAndRestrictions::spec_decode(b)
    }

    fn from_code_byte(value: u8) -> (r: Result<KindAndRestrictions, Error>) {
        KindAndRestrictions::from_byte(value, 0)
    }
}

impl AttrPos<5> for KindAndRestrictions {
}

impl Attr for Strategy {
    open spec fn spec_decode_byte(b: u8) -> Option<Strategy> {
        Strategy::spec_decode(b)
    }

    fn from_code_byte(value: u8) -> (r: Result<Strategy, Error>) {
        Strategy::from_byte(value, 0)
    }
}

impl AttrPos<2> for Strategy {
}

impl Attr for Kind {
    open spec fn spec_decode_byte(b: u8) -> Option<Kind> {
        Kind::spec_decode(b)
    }

    fn from_code_byte(value: u8) -> (r: Result<Kind, Error>) {
        Kind::from_byte(value, 0)
    }
}

impl AttrPos<5> for Kind {
}

impl Attr for Style {
    open spec fn spec_decode_byte(b: u8) -> Option<Style> {
        Style::spec_decode(b)
    }

    fn from_code_byte(value: u8) -> (r: Result<Style, Error>) {
        Style::from_byte(value, 0)
    }
}

impl AttrPos<3> for Style {
}

impl Attr for PensionKind {
    open spec fn spec_decode_byte(b: u8) -> Option<PensionKind> {
        PensionKind::spec_decode(b)
    }

    fn from_code_byte(value: u8) -> (r: Result<PensionKind, Error>) {
        PensionKind::from_byte(value, 0)
    }
}

impl AttrPos<4> for PensionKind {
}

impl Attr for FundsKind {
    open spec fn spec_decode_byte(b: u8) -> Option<FundsKind> {
        FundsKind::spec_decode(b)
    }

    fn from_code_byte(value: u8) -> (r: Result<FundsKind, Error>) {
        FundsKind::from_byte(value, 0)
    }
}

impl AttrPos<4> for FundsKind {
}

impl CfiGroup for Standard {
    type Attr1 = ClosedOrOpen;

    type Attr2 = Distribution;

    type Attr3 = Assets;

    type Attr4 = KindAndRestrictions;

    open spec fn spec_attr1(self) -> ClosedOrOpen {
        self.closed_or_open
    }

    open spec fn spec_attr2(self) -> Distribution {
        self.distribution
    }

    open spec fn spec_attr3(self) -> Assets {
        self.assets
    }

    open spec fn spec_attr4(self) -> KindAndRestrictions {
        self.security_kind
    }

    open spec fn spec_from_cfi(s: Seq<u8>) -> Result<Standard, Error> {
        Standard::spec_decode(s)
    }

    fn attr1(&self) -> (r: ClosedOrOpen) {
        self.closed_or_open
    }

    fn attr2(&self) -> (r: Distribution) {
        self.distribution
    }

    fn attr3(&self) -> (r: Assets) {
        self.assets
    }

    fn attr4(&self) -> (r: KindAndRestrictions) {
        self.security_kind
    }

    fn from_cfi_bytes(value: &[u8]) -> (r: Result<Standard, Error>) {
        Standard::from_bytes(value)
    }
}

impl CfiGroup for Hedge {
    type Attr1 = Strategy;

    type Attr2 = NotApplicable;

    type Attr3 = NotApplicable;

    type Attr4 = NotApplicable;

    open spec fn spec_attr1(self) -> Strategy {
        self.strategy
    }

    open spec fn spec_attr2(self) -> NotApplicable {
        self.attr2
    }

    open spec fn spec_attr3(self) -> NotApplicable {
        self.attr3
    }

    open spec fn spec_attr4(self) -> NotApplicable {
        self.attr4
    }

    open spec fn spec_from_cfi(s: Seq<u8>) -> Result<Hedge, Error> {
        Hedge::spec_decode(s)
    }

    fn attr1(&self) -> (r: Strategy) {
        self.strategy
    }

    fn attr2(&self) -> (r: NotApplicable) {
        self.attr2
    }

    fn attr3(&self) -> (r: NotApplicable) {
        self.attr3
    }

    fn attr4(&self) -> (r: NotApplicable) {
        self.attr4
    }

    fn from_cfi_bytes(value: &[u8]) -> (r: Result<Hedge, Error>) {
        Hedge::from_bytes(value)
    }
}

impl CfiGroup for Reit {
    type Attr1 = ClosedOrOpen;

    type Attr2 = Distribution;

    type Attr3 = NotApplicable;

    type Attr4 = KindAndRestrictions;

    open spec fn spec_attr1(self) -> ClosedOrOpen {
        self.closed_or_open
    }

    open spec fn spec_attr2(self) -> Distribution {
        self.distribution
    }

    open spec fn spec_attr3(self) -> NotApplicable {
        self.undefined3
    }

    open spec fn spec_attr4(self) -> KindAndRestrictions {
        self.security_kind
    }

    open spec fn spec_from_cfi(s: Seq<u8>) -> Result<Reit, Error> {
        Reit::spec_decode(s)
    }

    fn attr1(&self) -> (r: ClosedOrOpen) {
        self.closed_or_open
    }

    fn attr2(&self) -> (r: Distribution) {
        self.distribution
    }

    fn attr3(&self) -> (r: NotApplicable) {
        self.undefined3
    }

    fn attr4(&self) -> (r: KindAndRestrictions) {
        self.security_kind
    }

    fn from_cfi_bytes(value: &[u8]) -> (r: Result<Reit, Error>) {
        Reit::from_bytes(value)
    }
}

impl CfiGroup for Etf {
    type Attr1 = ClosedOrOpen;

    type Attr2 = Distribution;

    type Attr3 = Assets;

    type Attr4 = Kind;

    open spec fn spec_attr1(self) -> ClosedOrOpen {
        self.closed_or_open
    }

    open spec fn spec_attr2(self) -> Distribution {
        self.distribution
    }

    open spec fn spec_attr3(self) -> Assets {
        self.underlying
    }

    open spec fn spec_attr4(self) -> Kind {
        self.security_kind
    }

    open spec fn spec_from_cfi(s: Seq<u8>) -> Result<Etf, Error> {
        Etf::spec_decode(s)
    }

    fn attr1(&self) -> (r: ClosedOrOpen) {
        self.closed_or_open
    }

    fn attr2(&self) -> (r: Distribution) {
        self.distribution
    }

    fn attr3(&self) -> (r: Assets) {
        self.underlying
    }

    fn attr4(&self) -> (r: Kind) {
        self.security_kind
    }

    fn from_cfi_bytes(value: &[u8]) -> (r: Result<Etf, Error>) {
        Etf::from_bytes(value)
    }
}

impl CfiGroup for Pension {
    type Attr1 = ClosedOrOpen;

    type Attr2 = Style;

    type Attr3 = PensionKind;

    type Attr4 = Kind;

    open spec fn spec_attr1(self) -> ClosedOrOpen {
        self.closed_or_open
    }

    open spec fn spec_attr2(self) -> Style {
        self.style
    }

    open spec fn spec_attr3(self) -> PensionKind {
        self.kind
    }

    open spec fn spec_attr4(self) -> Kind {
        self.security_kind
    }

    open spec fn spec_from_cfi(s: Seq<u8>) -> Result<Pension, Error> {
        Pension::spec_decode(s)
    }

    fn attr1(&self) -> (r: ClosedOrOpen) {
        self.closed_or_open
    }

    fn attr2(&self) -> (r: Style) {
        self.style
    }

    fn attr3(&self) -> (r: PensionKind) {
        self.kind
    }

    fn attr4(&self) -> (r: Kind) {
        self.security_kind
    }

    fn from_cfi_bytes(value: &[u8]) -> (r: Result<Pension, Error>) {
        Pension::from_bytes(value)
    }
}

impl CfiGroup for FundOfFunds {
    type Attr1 = ClosedOrOpen;

    type Attr2 = Distribution;

    type Attr3 = FundsKind;

    type Attr4 = KindAndRestrictions;

    open spec fn spec_attr1(self) -> ClosedOrOpen {
        self.closed_or_open
    }

    open spec fn spec_attr2(self) -> Distribution {
        self.distribution
    }

    open spec fn spec_attr3(self) -> FundsKind {
        self.funds_kind
    }

    open spec fn spec_attr4(self) -> KindAndRestrictions {
        self.kind
    }

    open spec fn spec_from_cfi(s: Seq<u8>) -> Result<FundOfFunds, Error> {
        FundOfFunds::spec_decode(s)
    }

    fn attr1(&self) -> (r: ClosedOrOpen) {
        self.closed_or_open
    }

    fn attr2(&self) -> (r: Distribution) {
        self.distribution
    }

    fn attr3(&self) -> (r: FundsKind) {
        self.funds_kind
    }

    fn attr4(&self) -> (r: KindAndRestrictions) {
        self.kind
    }

    fn from_cfi_bytes(value: &[u8]) -> (r: Result<FundOfFunds, Error>) {
        FundOfFunds::from_bytes(value)
    }
}

impl CfiGroup for PrivateEquity {
    type Attr1 = ClosedOrOpen;

    type Attr2 = Distribution;

    type Attr3 = Assets;

    type Attr4 = KindAndRestrictions;

    open spec fn spec_attr1(self) -> ClosedOrOpen {
        self.closed_or_open
    }

    open spec fn spec_attr2(self) -> Distribution {
        self.distribution
    }

    open spec fn spec_attr3(self) -> Assets {
        self.assets
    }

    open spec fn spec_attr4(self) -> KindAndRestrictions {
        self.kind
    }

    open spec fn spec_from_cfi(s: Seq<u8>) -> Result<PrivateEquity, Error> {
        PrivateEquity::spec_decode(s)
    }

    fn attr1(&self) -> (r: ClosedOrOpen) {
        self.closed_or_open
    }

    fn attr2(&self) -> (r: Distribution) {
        self.distribution
    }

    fn attr3(&self) -> (r: Assets) {
        self.assets
    }

    fn attr4(&self) -> (r: KindAndRestrictions) {
        self.kind
    }

    fn from_cfi_bytes(value: &[u8]) -> (r: Result<PrivateEquity, Error>) {
        PrivateEquity::from_bytes(value)
    }
}

impl CfiGroup for Other {
    type Attr1 = NotApplicable;

    type Attr2 = NotApplicable;

    type Attr3 = NotApplicable;

    type Attr4 = KindAndRestrictions;

    open spec fn spec_attr1(self) -> NotApplicable {
        self.undefined1
    }

    open spec fn spec_attr2(self) -> NotApplicable {
        self.undefined2
    }

    open spec fn spec_attr3(self) -> NotApplicable {
        self.undefined3
    }

    open spec fn spec_attr4(self) -> KindAndRestrictions {
        self.kind
    }

    open spec fn spec_from_cfi(s: Seq<u8>) -> Result<Other, Error> {
        Other::spec_decode(s)
    }

    fn attr1(&self) -> (r: NotApplicable) {
        self.undefined1
    }

    fn attr2(&self) -> (r: NotApplicable) {
        self.undefined2
    }

    fn attr3(&self) -> (r: NotApplicable) {
        self.undefined3
    }

    fn attr4(&self) -> (r: KindAndRestrictions) {
        self.kind
    }

    fn from_cfi_bytes(value: &[u8]) -> (r: Result<Other, Error>) {
        Other::from_bytes(value)
    }
}

} // verus!
