//! Swaps category support.

use vstd::prelude::*;

use crate::Attr;
use crate::AttrPos;
use crate::CfiGroup;
use crate::Error;
use crate::NotApplicable;

verus! {

/// Swaps.
#[derive(Clone, Copy, Debug, Eq, Hash, Ord, PartialEq, PartialOrd, Structural)]
pub enum Swap {
    /// `R`: Rates.
    Rate(Rate),
    /// `T`: Commodities.
    Commodity(Commodity),
    /// `E`: Equity.
    Equity(Equity),
    /// `C`: Credit.
    Credit(Credit),
    /// `F`: Foreign exchange.
    Forex(Forex),
    /// `M`: Others (miscellaneous).
    Other(Other),
}

impl Swap {
    /// Whether `b` is one of this category's group tags.
    pub open spec fn spec_group_tag(b: u8) -> bool {
        b == 'R' as u8
            || b == 'T' as u8
            || b == 'E' as u8
            || b == 'C' as u8
            || b == 'F' as u8
            || b == 'M' as u8
    }

    /// The full six-byte encoding of this group, category tag included.
    pub open spec fn spec_bytes(self) -> Seq<u8> {
        match self {
            Swap::Rate(a) => seq!['S' as u8, 'R' as u8] + a.spec_bytes(),
            Swap::Commodity(a) => seq!['S' as u8, 'T' as u8] + a.spec_bytes(),
            Swap::Equity(a) => seq!['S' as u8, 'E' as u8] + a.spec_bytes(),
            Swap::Credit(a) => seq!['S' as u8, 'C' as u8] + a.spec_bytes(),
            Swap::Forex(a) => seq!['S' as u8, 'F' as u8] + a.spec_bytes(),
            Swap::Other(a) => seq!['S' as u8, 'M' as u8] + a.spec_bytes(),
        }
    }

    /// Whether byte `j` of `s` lies in the alphabet that this category's
    /// schema assigns to position `j`, for the group selected by byte 1.
    pub open spec fn spec_attr_ok(s: Seq<u8>, j: int) -> bool
        recommends
            s.len() == 6,
            2 <= j < 6,
    {
        if s[1] == 'R' as u8 {
            if j == 2 {
                RateUnderlying::spec_decode(s[2]) is Some
            } else if j == 3 {
                Notional::spec_decode(s[3]) is Some
            } else if j == 4 {
                RateCurrency::spec_decode(s[4]) is Some
            } else {
                RateDelivery::spec_decode(s[5]) is Some
            }
        } else if s[1] == 'T' as u8 {
            if j == 2 {
                CommodityUnderlying::spec_decode(s[2]) is Some
            } else if j == 3 {
                CommodityPayout::spec_decode(s[3]) is Some
            } else if j == 4 {
                NotApplicable::spec_decode(s[4]) is Some
            } else {
                CommodityDelivery::spec_decode(s[5]) is Some
            }
        } else if s[1] == 'E' as u8 {
            if j == 2 {
                EquityUnderlying::spec_decode(s[2]) is Some
            } else if j == 3 {
                EquityPayout::spec_decode(s[3]) is Some
            } else if j == 4 {
                NotApplicable::spec_decode(s[4]) is Some
            } else {
                EquityDelivery::spec_decode(s[5]) is Some
            }
        } else if s[1] == 'C' as u8 {
            if j == 2 {
                CreditUnderlying::spec_decode(s[2]) is Some
            } else if j == 3 {
                CreditPayout::spec_decode(s[3]) is Some
            } else if j == 4 {
                CreditIssuer::spec_decode(s[4]) is Some
            } else {
                CreditDelivery::spec_decode(s[5]) is Some
            }
        } else if s[1] == 'F' as u8 {
            if j == 2 {
                ForexUnderlying::spec_decode(s[2]) is Some
            } else if j == 3 {
                NotApplicable::spec_decode(s[3]) is Some
            } else if j == 4 {
                NotApplicable::spec_decode(s[4]) is Some
            } else {
                ForexDelivery::spec_decode(s[5]) is Some
            }
        } else if s[1] == 'M' as u8 {
            if j == 2 {
                OtherUnderlying::spec_decode(s[2]) is Some
            } else if j == 3 {
                NotApplicable::spec_decode(s[3]) is Some
            } else if j == 4 {
                NotApplicable::spec_decode(s[4]) is Some
            } else {
                OtherDelivery::spec_decode(s[5]) is Some
            }
        } else {
            true
        }
    }

    /// The group encoded by the six-byte code `s`, selected by byte 1, or
    /// the error for the first invalid position at or after byte 1.
    pub open spec fn spec_decode(s: Seq<u8>) -> Result<Swap, Error> {
        if s.len() != 6 {
            Err(Error::InvalidLength)
        } else if s[1] == 'R' as u8 {
            match Rate::spec_decode(s) {
                Ok(a) => Ok(Swap::Rate(a)),
                Err(e) => Err(e),
            }
        } else if s[1] == 'T' as u8 {
            match Commodity::spec_decode(s) {
                Ok(a) => Ok(Swap::Commodity(a)),
                Err(e) => Err(e),
            }
        } else if s[1] == 'E' as u8 {
            match Equity::spec_decode(s) {
                Ok(a) => Ok(Swap::Equity(a)),
                Err(e) => Err(e),
            }
        } else if s[1] == 'C' as u8 {
            match Credit::spec_decode(s) {
                Ok(a) => Ok(Swap::Credit(a)),
                Err(e) => Err(e),
            }
        } else if s[1] == 'F' as u8 {
            match Forex::spec_decode(s) {
                Ok(a) => Ok(Swap::Forex(a)),
                Err(e) => Err(e),
            }
        } else if s[1] == 'M' as u8 {
            match Other::spec_decode(s) {
                Ok(a) => Ok(Swap::Other(a)),
                Err(e) => Err(e),
            }
        } else {
            Err(Error::InvalidGroup(s[1]))
        }
    }

    /// Decode the group and attribute portion of a six-byte code of this
    /// category, failing on the first invalid position.
    pub fn from_bytes(src: &[u8]) -> (r: Result<Swap, Error>)
        ensures
            r == Swap::spec_decode(src@),
    {
        if src.len() != 6 {
            return Err(Error::InvalidLength);
        }
        if src[1] == 'R' as u8 {
            match Rate::from_bytes(src) {
                Ok(a) => Ok(Swap::Rate(a)),
                Err(e) => Err(e),
            }
        } else if src[1] == 'T' as u8 {
            match Commodity::from_bytes(src) {
                Ok(a) => Ok(Swap::Commodity(a)),
                Err(e) => Err(e),
            }
        } else if src[1] == 'E' as u8 {
            match Equity::from_bytes(src) {
                Ok(a) => Ok(Swap::Equity(a)),
                Err(e) => Err(e),
            }
        } else if src[1] == 'C' as u8 {
            match Credit::from_bytes(src) {
                Ok(a) => Ok(Swap::Credit(a)),
                Err(e) => Err(e),
            }
        } else if src[1] == 'F' as u8 {
            match Forex::from_bytes(src) {
                Ok(a) => Ok(Swap::Forex(a)),
                Err(e) => Err(e),
            }
        } else if src[1] == 'M' as u8 {
            match Other::from_bytes(src) {
                Ok(a) => Ok(Swap::Other(a)),
                Err(e) => Err(e),
            }
        } else {
            Err(Error::InvalidGroup(src[1]))
        }
    }

    /// The full six-byte encoding of this group, category tag included.
    pub fn to_bytes(&self) -> (r: [u8; 6])
        ensures
            r@ == self.spec_bytes(),
    {
        match self {
            Swap::Rate(a) => {
                let t = a.to_bytes();
                let r = ['S' as u8, 'R' as u8, t[0], t[1], t[2], t[3]];
                proof {
                    assert(r@ =~= self.spec_bytes());
                }
                r
            },
            Swap::Commodity(a) => {
                let t = a.to_bytes();
                let r = ['S' as u8, 'T' as u8, t[0], t[1], t[2], t[3]];
                proof {
                    assert(r@ =~= self.spec_bytes());
                }
                r
            },
            Swap::Equity(a) => {
                let t = a.to_bytes();
                let r = ['S' as u8, 'E' as u8, t[0], t[1], t[2], t[3]];
                proof {
                    assert(r@ =~= self.spec_bytes());
                }
                r
            },
            Swap::Credit(a) => {
                let t = a.to_bytes();
                let r = ['S' as u8, 'C' as u8, t[0], t[1], t[2], t[3]];
                proof {
                    assert(r@ =~= self.spec_bytes());
                }
                r
            },
            Swap::Forex(a) => {
                let t = a.to_bytes();
                let r = ['S' as u8, 'F' as u8, t[0], t[1], t[2], t[3]];
                proof {
                    assert(r@ =~= self.spec_bytes());
                }
                r
            },
            Swap::Other(a) => {
                let t = a.to_bytes();
                let r = ['S' as u8, 'M' as u8, t[0], t[1], t[2], t[3]];
                proof {
                    assert(r@ =~= self.spec_bytes());
                }
                r
            },
        }
    }

    /// Whether the group value is [`Swap::Rate`].
    pub fn is_rate(&self) -> (r: bool)
        ensures
            r == (self is Rate),
    {
        matches!(self, Swap::Rate(_))
    }

    /// Whether the group value is [`Swap::Commodity`].
    pub fn is_commodity(&self) -> (r: bool)
        ensures
            r == (self is Commodity),
    {
        matches!(self, Swap::Commodity(_))
    }

    /// Whether the group value is [`Swap::Equity`].
    pub fn is_equity(&self) -> (r: bool)
        ensures
            r == (self is Equity),
    {
        matches!(self, Swap::Equity(_))
    }

    /// Whether the group value is [`Swap::Credit`].
    pub fn is_credit(&self) -> (r: bool)
        ensures
            r == (self is Credit),
    {
        matches!(self, Swap::Credit(_))
    }

    /// Whether the group value is [`Swap::Forex`].
    pub fn is_forex(&self) -> (r: bool)
        ensures
            r == (self is Forex),
    {
        matches!(self, Swap::Forex(_))
    }

    /// Whether the group value is [`Swap::Other`].
    pub fn is_other(&self) -> (r: bool)
        ensures
            r == (self is Other),
    {
        matches!(self, Swap::Other(_))
    }
}

/// `SR`: Rates.
#[derive(Clone, Copy, Debug, Eq, Hash, Ord, PartialEq, PartialOrd, Structural)]
pub struct Rate {
    /// Underlying assets.
    pub underlying: RateUnderlying,
    /// Notional (indicates the face amount of a swap upon which the payment streams for that
    /// swap are based).
    pub notional: Notional,
    /// Single or multi-currency (indicates whether the swap is single or multi-currency).
    pub currency_kind: RateCurrency,
    /// Delivery (indicates whether the payment currency for each leg of the swap is the same
    /// as the reference currency for that leg).
    pub delivery: RateDelivery,
}

impl Rate {
    /// The four attribute bytes, in position order.
    pub open spec fn spec_bytes(self) -> Seq<u8> {
        seq![
            self.underlying.spec_byte(),
            self.notional.spec_byte(),
            self.currency_kind.spec_byte(),
            self.delivery.spec_byte(),
        ]
    }

    /// The value encoded in positions 2-5 of the six-byte code `s`, or
    /// the error for the first invalid position.
    pub open spec fn spec_decode(s: Seq<u8>) -> Result<Rate, Error> {
        if s.len() != 6 {
            Err(Error::InvalidLength)
        } else {
            match RateUnderlying::spec_decode(s[2]) {
                None => Err(Error::InvalidAttribute(2, s[2])),
                Some(underlying) => match Notional::spec_decode(s[3]) {
                    None => Err(Error::InvalidAttribute(3, s[3])),
                    Some(notional) => match RateCurrency::spec_decode(s[4]) {
                        None => Err(Error::InvalidAttribute(4, s[4])),
                        Some(currency_kind) => match RateDelivery::spec_decode(s[5]) {
                            None => Err(Error::InvalidAttribute(5, s[5])),
                            Some(delivery) => Ok(Rate { underlying, notional, currency_kind, delivery }),
                        },
                    },
                },
            }
        }
    }

    /// Decode attribute positions 2-5 of a full six-byte code, failing
    /// on the first invalid position.
    pub fn from_bytes(src: &[u8]) -> (r: Result<Rate, Error>)
        ensures
            r == Rate::spec_decode(src@),
    {
        if src.len() != 6 {
            return Err(Error::InvalidLength);
        }
        let underlying = match RateUnderlying::from_byte(src[2], 2) {
            Ok(a) => a,
            Err(e) => {
                return Err(e);
            },
        };
        let notional = match Notional::from_byte(src[3], 3) {
            Ok(a) => a,
            Err(e) => {
                return Err(e);
            },
        };
        let currency_kind = match RateCurrency::from_byte(src[4], 4) {
            Ok(a) => a,
            Err(e) => {
                return Err(e);
            },
        };
        let delivery = match RateDelivery::from_byte(src[5], 5) {
            Ok(a) => a,
            Err(e) => {
                return Err(e);
            },
        };
        Ok(Rate { underlying, notional, currency_kind, delivery })
    }

    /// The four attribute bytes, in position order.
    pub fn to_bytes(&self) -> (r: [u8; 4])
        ensures
            r@ == self.spec_bytes(),
    {
        let r = [
            self.underlying.to_byte(),
            self.notional.to_byte(),
            self.currency_kind.to_byte(),
            self.delivery.to_byte(),
        ];
        proof {
            assert(r@ =~= self.spec_bytes());
        }
        r
    }
}

/// `ST`: Commodities.
#[derive(Clone, Copy, Debug, Eq, Hash, Ord, PartialEq, PartialOrd, Structural)]
pub struct Commodity {
    /// Underlying assets.
    pub underlying: CommodityUnderlying,
    /// Return or payout trigger (method used to determine contract value).
    pub payout: CommodityPayout,
    /// Not applicable/undefined.
    pub attr3: NotApplicable,
    /// Delivery.
    pub delivery: CommodityDelivery,
}

impl Commodity {
    /// The four attribute bytes, in position order.
    pub open spec fn spec_bytes(self) -> Seq<u8> {
        seq![
            self.underlying.spec_byte(),
            self.payout.spec_byte(),
            self.attr3.spec_byte(),
            self.delivery.spec_byte(),
        ]
    }

    /// The value encoded in positions 2-5 of the six-byte code `s`, or
    /// the error for the first invalid position.
    pub open spec fn spec_decode(s: Seq<u8>) -> Result<Commodity, Error> {
        if s.len() != 6 {
            Err(Error::InvalidLength)
        } else {
            match CommodityUnderlying::spec_decode(s[2]) {
                None => Err(Error::InvalidAttribute(2, s[2])),
                Some(underlying) => match CommodityPayout::spec_decode(s[3]) {
                    None => Err(Error::InvalidAttribute(3, s[3])),
                    Some(payout) => match NotApplicable::spec_decode(s[4]) {
                        None => Err(Error::InvalidAttribute(4, s[4])),
                        Some(attr3) => match CommodityDelivery::spec_decode(s[5]) {
                            None => Err(Error::InvalidAttribute(5, s[5])),
                            Some(delivery) => Ok(Commodity { underlying, payout, attr3, delivery }),
                        },
                    },
                },
            }
        }
    }

    /// Decode attribute positions 2-5 of a full six-byte code, failing
    /// on the first invalid position.
    pub fn from_bytes(src: &[u8]) -> (r: Result<Commodity, Error>)
        ensures
            r == Commodity::spec_decode(src@),
    {
        if src.len() != 6 {
            return Err(Error::InvalidLength);
        }
        let underlying = match CommodityUnderlying::from_byte(src[2], 2) {
            Ok(a) => a,
            Err(e) => {
                return Err(e);
            },
        };
        let payout = match CommodityPayout::from_byte(src[3], 3) {
            Ok(a) => a,
            Err(e) => {
                return Err(e);
            },
        };
        let attr3 = match NotApplicable::from_byte(src[4], 4) {
            Ok(a) => a,
            Err(e) => {
                return Err(e);
            },
        };
        let delivery = match CommodityDelivery::from_byte(src[5], 5) {
            Ok(a) => a,
            Err(e) => {
                return Err(e);
            },
        };
        Ok(Commodity { underlying, payout, attr3, delivery })
    }

    /// The four attribute bytes, in position order.
    pub fn to_bytes(&self) -> (r: [u8; 4])
        ensures
            r@ == self.spec_bytes(),
    {
        let r = [
            self.underlying.to_byte(),
            self.payout.to_byte(),
            self.attr3.to_byte(),
            self.delivery.to_byte(),
        ];
        proof {
            assert(r@ =~= self.spec_bytes());
        }
        r
    }
}

/// `SE`: Equity.
#[derive(Clone, Copy, Debug, Eq, Hash, Ord, PartialEq, PartialOrd, Structural)]
pub struct Equity {
    /// Underlying assets.
    pub underlying: EquityUnderlying,
    /// Return or payout trigger.
    pub payout: EquityPayout,
    /// Not applicable/undefined.
    pub attr3: NotApplicable,
    /// Delivery.
    pub delivery: EquityDelivery,
}

impl Equity {
    /// The four attribute bytes, in position order.
    pub open spec fn spec_bytes(self) -> Seq<u8> {
        seq![
            self.underlying.spec_byte(),
            self.payout.spec_byte(),
            self.attr3.spec_byte(),
            self.delivery.spec_byte(),
        ]
    }

    /// The value encoded in positions 2-5 of the six-byte code `s`, or
    /// the error for the first invalid position.
    pub open spec fn spec_decode(s: Seq<u8>) -> Result<Equity, Error> {
        if s.len() != 6 {
            Err(Error::InvalidLength)
        } else {
            match EquityUnderlying::spec_decode(s[2]) {
                None => Err(Error::InvalidAttribute(2, s[2])),
                Some(underlying) => match EquityPayout::spec_decode(s[3]) {
                    None => Err(Error::InvalidAttribute(3, s[3])),
                    Some(payout) => match NotApplicable::spec_decode(s[4]) {
                        None => Err(Error::InvalidAttribute(4, s[4])),
                        Some(attr3) => match EquityDelivery::spec_decode(s[5]) {
                            None => Err(Error::InvalidAttribute(5, s[5])),
                            Some(delivery) => Ok(Equity { underlying, payout, attr3, delivery }),
                        },
                    },
                },
            }
        }
    }

    /// Decode attribute positions 2-5 of a full six-byte code, failing
    /// on the first invalid position.
    pub fn from_bytes(src: &[u8]) -> (r: Result<Equity, Error>)
        ensures
            r == Equity::spec_decode(src@),
    {
        if src.len() != 6 {
            return Err(Error::InvalidLength);
        }
        let underlying = match EquityUnderlying::from_byte(src[2], 2) {
            Ok(a) => a,
            Err(e) => {
                return Err(e);
            },
        };
        let payout = match EquityPayout::from_byte(src[3], 3) {
            Ok(a) => a,
            Err(e) => {
                return Err(e);
            },
        };
        let attr3 = match NotApplicable::from_byte(src[4], 4) {
            Ok(a) => a,
            Err(e) => {
                return Err(e);
            },
        };
        let delivery = match EquityDelivery::from_byte(src[5], 5) {
            Ok(a) => a,
            Err(e) => {
                return Err(e);
            },
        };
        Ok(Equity { underlying, payout, attr3, delivery })
    }

    /// The four attribute bytes, in position order.
    pub fn to_bytes(&self) -> (r: [u8; 4])
        ensures
            r@ == self.spec_bytes(),
    {
        let r = [
            self.underlying.to_byte(),
            self.payout.to_byte(),
            self.attr3.to_byte(),
            self.delivery.to_byte(),
        ];
        proof {
            assert(r@ =~= self.spec_bytes());
        }
        r
    }
}

/// `SC`: Credit.
#[derive(Clone, Copy, Debug, Eq, Hash, Ord, PartialEq, PartialOrd, Structural)]
pub struct Credit {
    /// Underlying assets.
    pub underlying: CreditUnderlying,
    /// Return or payout trigger.
    pub payout: CreditPayout,
    /// Underlying issuer type.
    pub issuer: CreditIssuer,
    /// Delivery.
    pub delivery: CreditDelivery,
}

impl Credit {
    /// The four attribute bytes, in position order.
    pub open spec fn spec_bytes(self) -> Seq<u8> {
        seq![
            self.underlying.spec_byte(),
            self.payout.spec_byte(),
            self.issuer.spec_byte(),
            self.delivery.spec_byte(),
        ]
    }

    /// The value encoded in positions 2-5 of the six-byte code `s`, or
    /// the error for the first invalid position.
    pub open spec fn spec_decode(s: Seq<u8>) -> Result<Credit, Error> {
        if s.len() != 6 {
            Err(Error::InvalidLength)
        } else {
            match CreditUnderlying::spec_decode(s[2]) {
                None => Err(Error::InvalidAttribute(2, s[2])),
                Some(underlying) => match CreditPayout::spec_decode(s[3]) {
                    None => Err(Error::InvalidAttribute(3, s[3])),
                    Some(payout) => match CreditIssuer::spec_decode(s[4]) {
                        None => Err(Error::InvalidAttribute(4, s[4])),
                        Some(issuer) => match CreditDelivery::spec_decode(s[5]) {
                            None => Err(Error::InvalidAttribute(5, s[5])),
                            Some(delivery) => Ok(Credit { underlying, payout, issuer, delivery }),
                        },
                    },
                },
            }
        }
    }

    /// Decode attribute positions 2-5 of a full six-byte code, failing
    /// on the first invalid position.
    pub fn from_bytes(src: &[u8]) -> (r: Result<Credit, Error>)
        ensures
            r == Credit::spec_decode(src@),
    {
        if src.len() != 6 {
            return Err(Error::InvalidLength);
        }
        let underlying = match CreditUnderlying::from_byte(src[2], 2) {
            Ok(a) => a,
            Err(e) => {
                return Err(e);
            },
        };
        let payout = match CreditPayout::from_byte(src[3], 3) {
            Ok(a) => a,
            Err(e) => {
                return Err(e);
            },
        };
        let issuer = match CreditIssuer::from_byte(src[4], 4) {
            Ok(a) => a,
            Err(e) => {
                return Err(e);
            },
        };
        let delivery = match CreditDelivery::from_byte(src[5], 5) {
            Ok(a) => a,
            Err(e) => {
                return Err(e);
            },
        };
        Ok(Credit { underlying, payout, issuer, delivery })
    }

    /// The four attribute bytes, in position order.
    pub fn to_bytes(&self) -> (r: [u8; 4])
        ensures
            r@ == self.spec_bytes(),
    {
        let r = [
            self.underlying.to_byte(),
            self.payout.to_byte(),
            self.issuer.to_byte(),
            self.delivery.to_byte(),
        ];
        proof {
            assert(r@ =~= self.spec_bytes());
        }
        r
    }
}

/// `SF`: Foreign exchange.
#[derive(Clone, Copy, Debug, Eq, Hash, Ord, PartialEq, PartialOrd, Structural)]
pub struct Forex {
    /// Underlying assets.
    pub underlying: ForexUnderlying,
    /// Not applicable/undefined.
    pub attr2: NotApplicable,
    /// Not applicable/undefined.
    pub attr3: NotApplicable,
    /// Delivery.
    pub delivery: ForexDelivery,
}

impl Forex {
    /// The four attribute bytes, in position order.
    pub open spec fn spec_bytes(self) -> Seq<u8> {
        seq![
            self.underlying.spec_byte(),
            self.attr2.spec_byte(),
            self.attr3.spec_byte(),
            self.delivery.spec_byte(),
        ]
    }

    /// The value encoded in positions 2-5 of the six-byte code `s`, or
    /// the error for the first invalid position.
    pub open spec fn spec_decode(s: Seq<u8>) -> Result<Forex, Error> {
        if s.len() != 6 {
            Err(Error::InvalidLength)
        } else {
            match ForexUnderlying::spec_decode(s[2]) {
                None => Err(Error::InvalidAttribute(2, s[2])),
                Some(underlying) => match NotApplicable::spec_decode(s[3]) {
                    None => Err(Error::InvalidAttribute(3, s[3])),
                    Some(attr2) => match NotApplicable::spec_decode(s[4]) {
                        None => Err(Error::InvalidAttribute(4, s[4])),
                        Some(attr3) => match ForexDelivery::spec_decode(s[5]) {
                            None => Err(Error::InvalidAttribute(5, s[5])),
                            Some(delivery) => Ok(Forex { underlying, attr2, attr3, delivery }),
                        },
                    },
                },
            }
        }
    }

    /// Decode attribute positions 2-5 of a full six-byte code, failing
    /// on the first invalid position.
    pub fn from_bytes(src: &[u8]) -> (r: Result<Forex, Error>)
        ensures
            r == Forex::spec_decode(src@),
    {
        if src.len() != 6 {
            return Err(Error::InvalidLength);
        }
        let underlying = match ForexUnderlying::from_byte(src[2], 2) {
            Ok(a) => a,
            Err(e) => {
                return Err(e);
            },
        };
        let attr2 = match NotApplicable::from_byte(src[3], 3) {
            Ok(a) => a,
            Err(e) => {
                return Err(e);
            },
        };
        let attr3 = match NotApplicable::from_byte(src[4], 4) {
            Ok(a) => a,
            Err(e) => {
                return Err(e);
            },
        };
        let delivery = match ForexDelivery::from_byte(src[5], 5) {
            Ok(a) => a,
            Err(e) => {
                return Err(e);
            },
        };
        Ok(Forex { underlying, attr2, attr3, delivery })
    }

    /// The four attribute bytes, in position order.
    pub fn to_bytes(&self) -> (r: [u8; 4])
        ensures
            r@ == self.spec_bytes(),
    {
        let r = [
            self.underlying.to_byte(),
            self.attr2.to_byte(),
            self.attr3.to_byte(),
            self.delivery.to_byte(),
        ];
        proof {
            assert(r@ =~= self.spec_bytes());
        }
        r
    }
}

/// `SM`: Others (miscellaneous).
#[derive(Clone, Copy, Debug, Eq, Hash, Ord, PartialEq, PartialOrd, Structural)]
pub struct Other {
    /// Underlying assets.
    pub underlying: OtherUnderlying,
    /// Not applicable/undefined.
    pub attr2: NotApplicable,
    /// Not applicable/undefined.
    pub attr3: NotApplicable,
    /// Delivery.
    pub delivery: OtherDelivery,
}

impl Other {
    /// The four attribute bytes, in position order.
    pub open spec fn spec_bytes(self) -> Seq<u8> {
        seq![
            self.underlying.spec_byte(),
            self.attr2.spec_byte(),
            self.attr3.spec_byte(),
            self.delivery.spec_byte(),
        ]
    }

    /// The value encoded in positions 2-5 of the six-byte code `s`, or
    /// the error for the first invalid position.
    pub open spec fn spec_decode(s: Seq<u8>) -> Result<Other, Error> {
        if s.len() != 6 {
            Err(Error::InvalidLength)
        } else {
            match OtherUnderlying::spec_decode(s[2]) {
                None => Err(Error::InvalidAttribute(2, s[2])),
                Some(underlying) => match NotApplicable::spec_decode(s[3]) {
                    None => Err(Error::InvalidAttribute(3, s[3])),
                    Some(attr2) => match NotApplicable::spec_decode(s[4]) {
                        None => Err(Error::InvalidAttribute(4, s[4])),
                        Some(attr3) => match OtherDelivery::spec_decode(s[5]) {
                            None => Err(Error::InvalidAttribute(5, s[5])),
                            Some(delivery) => Ok(Other { underlying, attr2, attr3, delivery }),
                        },
                    },
                },
            }
        }
    }

    /// Decode attribute positions 2-5 of a full six-byte code, failing
    /// on the first invalid position.
    pub fn from_bytes(src: &[u8]) -> (r: Result<Other, Error>)
        ensures
            r == Other::spec_decode(src@),
    {
        if src.len() != 6 {
            return Err(Error::InvalidLength);
        }
        let underlying = match OtherUnderlying::from_byte(src[2], 2) {
            Ok(a) => a,
            Err(e) => {
                return Err(e);
            },
        };
        let attr2 = match NotApplicable::from_byte(src[3], 3) {
            Ok(a) => a,
            Err(e) => {
                return Err(e);
            },
        };
        let attr3 = match NotApplicable::from_byte(src[4], 4) {
            Ok(a) => a,
            Err(e) => {
                return Err(e);
            },
        };
        let delivery = match OtherDelivery::from_byte(src[5], 5) {
            Ok(a) => a,
            Err(e) => {
                return Err(e);
            },
        };
        Ok(Other { underlying, attr2, attr3, delivery })
    }

    /// The four attribute bytes, in position order.
    pub fn to_bytes(&self) -> (r: [u8; 4])
        ensures
            r@ == self.spec_bytes(),
    {
        let r = [
            self.underlying.to_byte(),
            self.attr2.to_byte(),
            self.attr3.to_byte(),
            self.delivery.to_byte(),
        ];
        proof {
            assert(r@ =~= self.spec_bytes());
        }
        r
    }
}

/// Underlying rate assets.
#[derive(Clone, Copy, Debug, Eq, Hash, Ord, PartialEq, PartialOrd, Structural)]
pub enum RateUnderlying {
    /// `A`: Basis swap (float-float).
    Basis,
    /// `C`: Fixed-floating.
    FixedFloating,
    /// `D`: Fixed-fixed.
    FixedFixed,
    /// `G`: Inflation swap.
    Inflation,
    /// `H`: Overnight index swap (OIS).
    OvernightIndex,
    /// `Z`: Zero coupon.
    ZeroCoupon,
    /// `M`: Others (miscellaneous).
    Other,
    /// `X`: Not applicable or undefined.
    Undefined,
}

impl RateUnderlying {
    /// The code character assigned to this value.
    pub open spec fn spec_byte(self) -> u8 {
        match self {
            RateUnderlying::Basis => 'A' as u8,
            RateUnderlying::FixedFloating => 'C' as u8,
            RateUnderlying::FixedFixed => 'D' as u8,
            RateUnderlying::Inflation => 'G' as u8,
            RateUnderlying::OvernightIndex => 'H' as u8,
            RateUnderlying::ZeroCoupon => 'Z' as u8,
            RateUnderlying::Other => 'M' as u8,
            RateUnderlying::Undefined => 'X' as u8,
        }
    }

    /// The member encoded by `b`, if `b` lies in this attribute's alphabet.
    pub open spec fn spec_decode(b: u8) -> Option<RateUnderlying> {
        if b == 'A' as u8 {
            Some(RateUnderlying::Basis)
        } else if b == 'C' as u8 {
            Some(RateUnderlying::FixedFloating)
        } else if b == 'D' as u8 {
            Some(RateUnderlying::FixedFixed)
        } else if b == 'G' as u8 {
            Some(RateUnderlying::Inflation)
        } else if b == 'H' as u8 {
            Some(RateUnderlying::OvernightIndex)
        } else if b == 'Z' as u8 {
            Some(RateUnderlying::ZeroCoupon)
        } else if b == 'M' as u8 {
            Some(RateUnderlying::Other)
        } else if b == 'X' as u8 {
            Some(RateUnderlying::Undefined)
        } else {
            None
        }
    }

    /// Decode the attribute byte found at position `pos` of a code.
    pub fn from_byte(b: u8, pos: usize) -> (r: Result<RateUnderlying, Error>)
        ensures
            match RateUnderlying::spec_decode(b) {
                Some(a) => r == Ok::<RateUnderlying, Error>(a),
                None => r == Err::<RateUnderlying, Error>(Error::InvalidAttribute(pos, b)),
            },
    {
        if b == 'A' as u8 {
            Ok(RateUnderlying::Basis)
        } else if b == 'C' as u8 {
            Ok(RateUnderlying::FixedFloating)
        } else if b == 'D' as u8 {
            Ok(RateUnderlying::FixedFixed)
        } else if b == 'G' as u8 {
            Ok(RateUnderlying::Inflation)
        } else if b == 'H' as u8 {
            Ok(RateUnderlying::OvernightIndex)
        } else if b == 'Z' as u8 {
            Ok(RateUnderlying::ZeroCoupon)
        } else if b == 'M' as u8 {
            Ok(RateUnderlying::Other)
        } else if b == 'X' as u8 {
            Ok(RateUnderlying::Undefined)
        } else {
            Err(Error::InvalidAttribute(pos, b))
        }
    }

    /// The byte this value encodes to; the inverse of decoding.
    pub fn to_byte(&self) -> (r: u8)
        ensures
            r == self.spec_byte(),
    {
        match self {
            RateUnderlying::Basis => 'A' as u8,
            RateUnderlying::FixedFloating => 'C' as u8,
            RateUnderlying::FixedFixed => 'D' as u8,
            RateUnderlying::Inflation => 'G' as u8,
            RateUnderlying::OvernightIndex => 'H' as u8,
            RateUnderlying::ZeroCoupon => 'Z' as u8,
            RateUnderlying::Other => 'M' as u8,
            RateUnderlying::Undefined => 'X' as u8,
        }
    }

    /// Check if this value is [`RateUnderlying::Basis`].
    pub fn is_basis(&self) -> (r: bool)
        ensures
            r == (self is Basis),
    {
        matches!(self, RateUnderlying::Basis)
    }

    /// Check if this value is [`RateUnderlying::FixedFloating`].
    pub fn is_fixed_floating(&self) -> (r: bool)
        ensures
            r == (self is FixedFloating),
    {
        matches!(self, RateUnderlying::FixedFloating)
    }

    /// Check if this value is [`RateUnderlying::FixedFixed`].
    pub fn is_fixed_fixed(&self) -> (r: bool)
        ensures
            r == (self is FixedFixed),
    {
        matches!(self, RateUnderlying::FixedFixed)
    }

    /// Check if this value is [`RateUnderlying::Inflation`].
    pub fn is_inflation(&self) -> (r: bool)
        ensures
            r == (self is Inflation),
    {
        matches!(self, RateUnderlying::Inflation)
    }

    /// Check if this value is [`RateUnderlying::OvernightIndex`].
    pub fn is_overnight_index(&self) -> (r: bool)
        ensures
            r == (self is OvernightIndex),
    {
        matches!(self, RateUnderlying::OvernightIndex)
    }

    /// Check if this value is [`RateUnderlying::ZeroCoupon`].
    pub fn is_zero_coupon(&self) -> (r: bool)
        ensures
            r == (self is ZeroCoupon),
    {
        matches!(self, RateUnderlying::ZeroCoupon)
    }

    /// Check if this value is [`RateUnderlying::Other`].
    pub fn is_other(&self) -> (r: bool)
        ensures
            r == (self is Other),
    {
        matches!(self, RateUnderlying::Other)
    }

    /// Check if this value is [`RateUnderlying::Undefined`].
    pub fn is_undefined(&self) -> (r: bool)
        ensures
            r == (self is Undefined),
    {
        matches!(self, RateUnderlying::Undefined)
    }
}

/// Notional.
#[derive(Clone, Copy, Debug, Eq, Hash, Ord, PartialEq, PartialOrd, Structural)]
pub enum Notional {
    /// `C`: Constant.
    Constant,
    /// `I`: Accreting.
    Acreting,
    /// `D`: Amortizing.
    Amortizing,
    /// `Y`: Custom.
    Custom,
    /// `X`: Not applicable or undefined.
    Undefined,
}

impl Notional {
    /// The code character assigned to this value.
    pub open spec fn spec_byte(self) -> u8 {
        match self {
            Notional::Constant => 'C' as u8,
            Notional::Acreting => 'I' as u8,
            Notional::Amortizing => 'D' as u8,
            Notional::Custom => 'Y' as u8,
            Notional::Undefined => 'X' as u8,
        }
    }

    /// The member encoded by `b`, if `b` lies in this attribute's alphabet.
    pub open spec fn spec_decode(b: u8) -> Option<Notional> {
        if b == 'C' as u8 {
            Some(Notional::Constant)
        } else if b == 'I' as u8 {
            Some(Notional::Acreting)
        } else if b == 'D' as u8 {
            Some(Notional::Amortizing)
        } else if b == 'Y' as u8 {
            Some(Notional::Custom)
        } else if b == 'X' as u8 {
            Some(Notional::Undefined)
        } else {
            None
        }
    }

    /// Decode the attribute byte found at position `pos` of a code.
    pub fn from_byte(b: u8, pos: usize) -> (r: Result<Notional, Error>)
        ensures
            match Notional::spec_decode(b) {
                Some(a) => r == Ok::<Notional, Error>(a),
                None => r == Err::<Notional, Error>(Error::InvalidAttribute(pos, b)),
            },
    {
        if b == 'C' as u8 {
            Ok(Notional::Constant)
        } else if b == 'I' as u8 {
            Ok(Notional::Acreting)
        } else if b == 'D' as u8 {
            Ok(Notional::Amortizing)
        } else if b == 'Y' as u8 {
            Ok(Notional::Custom)
        } else if b == 'X' as u8 {
            Ok(Notional::Undefined)
        } else {
            Err(Error::InvalidAttribute(pos, b))
        }
    }

    /// The byte this value encodes to; the inverse of decoding.
    pub fn to_byte(&self) -> (r: u8)
        ensures
            r == self.spec_byte(),
    {
        match self {
            Notional::Constant => 'C' as u8,
            Notional::Acreting => 'I' as u8,
            Notional::Amortizing => 'D' as u8,
            Notional::Custom => 'Y' as u8,
            Notional::Undefined => 'X' as u8,
        }
    }

    /// Check if this value is [`Notional::Constant`].
    pub fn is_constant(&self) -> (r: bool)
        ensures
            r == (self is Constant),
    {
        matches!(self, Notional::Constant)
    }

    /// Check if this value is [`Notional::Acreting`].
    pub fn is_acreting(&self) -> (r: bool)
        ensures
            r == (self is Acreting),
    {
        matches!(self, Notional::Acreting)
    }

    /// Check if this value is [`Notional::Amortizing`].
    pub fn is_amortizing(&self) -> (r: bool)
        ensures
            r == (self is Amortizing),
    {
        matches!(self, Notional::Amortizing)
    }

    /// Check if this value is [`Notional::Custom`].
    pub fn is_custom(&self) -> (r: bool)
        ensures
            r == (self is Custom),
    {
        matches!(self, Notional::Custom)
    }

    /// Check if this value is [`Notional::Undefined`].
    pub fn is_undefined(&self) -> (r: bool)
        ensures
            r == (self is Undefined),
    {
        matches!(self, Notional::Undefined)
    }
}

/// Single or multi-currency.
#[derive(Clone, Copy, Debug, Eq, Hash, Ord, PartialEq, PartialOrd, Structural)]
pub enum RateCurrency {
    /// `S`: Single currency.
    Single,
    /// `C`: Cross-currency (multi-currency).
    Cross,
    /// `X`: Not applicable or undefined.
    Undefined,
}

impl RateCurrency {
    /// The code character assigned to this value.
    pub open spec fn spec_byte(self) -> u8 {
        match self {
            RateCurrency::Single => 'S' as u8,
            RateCurrency::Cross => 'C' as u8,
            RateCurrency::Undefined => 'X' as u8,
        }
    }

    /// The member encoded by `b`, if `b` lies in this attribute's alphabet.
    pub open spec fn spec_decode(b: u8) -> Option<RateCurrency> {
        if b == 'S' as u8 {
            Some(RateCurrency::Single)
        } else if b == 'C' as u8 {
            Some(RateCurrency::Cross)
        } else if b == 'X' as u8 {
            Some(RateCurrency::Undefined)
        } else {
            None
        }
    }

    /// Decode the attribute byte found at position `pos` of a code.
    pub fn from_byte(b: u8, pos: usize) -> (r: Result<RateCurrency, Error>)
        ensures
            match RateCurrency::spec_decode(b) {
                Some(a) => r == Ok::<RateCurrency, Error>(a),
                None => r == Err::<RateCurrency, Error>(Error::InvalidAttribute(pos, b)),
            },
    {
        if b == 'S' as u8 {
            Ok(RateCurrency::Single)
        } else if b == 'C' as u8 {
            Ok(RateCurrency::Cross)
        } else if b == 'X' as u8 {
            Ok(RateCurrency::Undefined)
        } else {
            Err(Error::InvalidAttribute(pos, b))
        }
    }

    /// The byte this value encodes to; the inverse of decoding.
    pub fn to_byte(&self) -> (r: u8)
        ensures
            r == self.spec_byte(),
    {
        match self {
            RateCurrency::Single => 'S' as u8,
            RateCurrency::Cross => 'C' as u8,
            RateCurrency::Undefined => 'X' as u8,
        }
    }

    /// Check if this value is [`RateCurrency::Single`].
    pub fn is_single(&self) -> (r: bool)
        ensures
            r == (self is Single),
    {
        matches!(self, RateCurrency::Single)
    }

    /// Check if this value is [`RateCurrency::Cross`].
    pub fn is_cross(&self) -> (r: bool)
        ensures
            r == (self is Cross),
    {
        matches!(self, RateCurrency::Cross)
    }

    /// Check if this value is [`RateCurrency::Undefined`].
    pub fn is_undefined(&self) -> (r: bool)
        ensures
            r == (self is Undefined),
    {
        matches!(self, RateCurrency::Undefined)
    }
}

/// Rate Delivery.
#[derive(Clone, Copy, Debug, Eq, Hash, Ord, PartialEq, PartialOrd, Structural)]
pub enum RateDelivery {
    /// `D`: Deliverable.
    Deliverable,
    /// `N`: Non-deliverable.
    NonDeliverable,
    /// `X`: Not applicable or undefined.
    Undefined,
}

impl RateDelivery {
    /// The code character assigned to this value.
    pub open spec fn spec_byte(self) -> u8 {
        match self {
            RateDelivery::Deliverable => 'D' as u8,
            RateDelivery::NonDeliverable => 'N' as u8,
            RateDelivery::Undefined => 'X' as u8,
        }
    }

    /// The member encoded by `b`, if `b` lies in this attribute's alphabet.
    pub open spec fn spec_decode(b: u8) -> Option<RateDelivery> {
        if b == 'D' as u8 {
            Some(RateDelivery::Deliverable)
        } else if b == 'N' as u8 {
            Some(RateDelivery::NonDeliverable)
        } else if b == 'X' as u8 {
            Some(RateDelivery::Undefined)
        } else {
            None
        }
    }

    /// Decode the attribute byte found at position `pos` of a code.
    pub fn from_byte(b: u8, pos: usize) -> (r: Result<RateDelivery, Error>)
        ensures
            match RateDelivery::spec_decode(b) {
                Some(a) => r == Ok::<RateDelivery, Error>(a),
                None => r == Err::<RateDelivery, Error>(Error::InvalidAttribute(pos, b)),
            },
    {
        if b == 'D' as u8 {
            Ok(RateDelivery::Deliverable)
        } else if b == 'N' as u8 {
            Ok(RateDelivery::NonDeliverable)
        } else if b == 'X' as u8 {
            Ok(RateDelivery::Undefined)
        } else {
            Err(Error::InvalidAttribute(pos, b))
        }
    }

    /// The byte this value encodes to; the inverse of decoding.
    pub fn to_byte(&self) -> (r: u8)
        ensures
            r == self.spec_byte(),
    {
        match self {
            RateDelivery::Deliverable => 'D' as u8,
            RateDelivery::NonDeliverable => 'N' as u8,
            RateDelivery::Undefined => 'X' as u8,
        }
    }

    /// Check if this value is [`RateDelivery::Deliverable`].
    pub fn is_deliverable(&self) -> (r: bool)
        ensures
            r == (self is Deliverable),
    {
        matches!(self, RateDelivery::Deliverable)
    }

    /// Check if this value is [`RateDelivery::NonDeliverable`].
    pub fn is_non_deliverable(&self) -> (r: bool)
        ensures
            r == (self is NonDeliverable),
    {
        matches!(self, RateDelivery::NonDeliverable)
    }

    /// Check if this value is [`RateDelivery::Undefined`].
    pub fn is_undefined(&self) -> (r: bool)
        ensures
            r == (self is Undefined),
    {
        matches!(self, RateDelivery::Undefined)
    }
}

/// Underlying commodity assets.
#[derive(Clone, Copy, Debug, Eq, Hash, Ord, PartialEq, PartialOrd, Structural)]
pub enum CommodityUnderlying {
    /// `J`: Energy.
    Energy,
    /// `K`: Metals.
    Metals,
    /// `A`: Agriculture.
    Agriculture,
    /// `N`: Environmental.
    Environmental,
    /// `G`: Freight.
    Freight,
    /// `P`: Polypropylene products.
    Polypropylene,
    /// `S`: Fertilizer.
    Fertilizer,
    /// `T`: Paper.
    Paper,
    /// `I`: Index – single-commodity.
    SingleIndex,
    /// `H`: Index – multi-commodity.
    MultiIndex,
    /// `B`: Basket – single-commodity.
    SingleBasket,
    /// `C`: Basket – multi-commodity.
    MultiBasket,
    /// `Q`: Multi-commodity.
    Multi,
    /// `M`: Others (miscellaneous).
    Other,
    /// `X`: Not applicable or undefined.
    Undefined,
}

impl CommodityUnderlying {
    /// The code character assigned to this value.
    pub open spec fn spec_byte(self) -> u8 {
        match self {
            CommodityUnderlying::Energy => 'J' as u8,
            CommodityUnderlying::Metals => 'K' as u8,
            CommodityUnderlying::Agriculture => 'A' as u8,
            CommodityUnderlying::Environmental => 'N' as u8,
            CommodityUnderlying::Freight => 'G' as u8,
            CommodityUnderlying::Polypropylene => 'P' as u8,
            CommodityUnderlying::Fertilizer => 'S' as u8,
            CommodityUnderlying::Paper => 'T' as u8,
            CommodityUnderlying::SingleIndex => 'I' as u8,
            CommodityUnderlying::MultiIndex => 'H' as u8,
            CommodityUnderlying::SingleBasket => 'B' as u8,
            CommodityUnderlying::MultiBasket => 'C' as u8,
            CommodityUnderlying::Multi => 'Q' as u8,
            CommodityUnderlying::Other => 'M' as u8,
            CommodityUnderlying::Undefined => 'X' as u8,
        }
    }

    /// The member encoded by `b`, if `b` lies in this attribute's alphabet.
    pub open spec fn spec_decode(b: u8) -> Option<CommodityUnderlying> {
        if b == 'J' as u8 {
            Some(CommodityUnderlying::Energy)
        } else if b == 'K' as u8 {
            Some(CommodityUnderlying::Metals)
        } else if b == 'A' as u8 {
            Some(CommodityUnderlying::Agriculture)
        } else if b == 'N' as u8 {
            Some(CommodityUnderlying::Environmental)
        } else if b == 'G' as u8 {
            Some(CommodityUnderlying::Freight)
        } else if b == 'P' as u8 {
            Some(CommodityUnderlying::Polypropylene)
        } else if b == 'S' as u8 {
            Some(CommodityUnderlying::Fertilizer)
        } else if b == 'T' as u8 {
            Some(CommodityUnderlying::Paper)
        } else if b == 'I' as u8 {
            Some(CommodityUnderlying::SingleIndex)
        } else if b == 'H' as u8 {
            Some(CommodityUnderlying::MultiIndex)
        } else if b == 'B' as u8 {
            Some(CommodityUnderlying::SingleBasket)
        } else if b == 'C' as u8 {
            Some(CommodityUnderlying::MultiBasket)
        } else if b == 'Q' as u8 {
            Some(CommodityUnderlying::Multi)
        } else if b == 'M' as u8 {
            Some(CommodityUnderlying::Other)
        } else if b == 'X' as u8 {
            Some(CommodityUnderlying::Undefined)
        } else {
            None
        }
    }

    /// Decode the attribute byte found at position `pos` of a code.
    pub fn from_byte(b: u8, pos: usize) -> (r: Result<CommodityUnderlying, Error>)
        ensures
            match CommodityUnderlying::spec_decode(b) {
                Some(a) => r == Ok::<CommodityUnderlying, Error>(a),
                None => r == Err::<CommodityUnderlying, Error>(Error::InvalidAttribute(pos, b)),
            },
    {
        if b == 'J' as u8 {
            Ok(CommodityUnderlying::Energy)
        } else if b == 'K' as u8 {
            Ok(CommodityUnderlying::Metals)
        } else if b == 'A' as u8 {
            Ok(CommodityUnderlying::Agriculture)
        } else if b == 'N' as u8 {
            Ok(CommodityUnderlying::Environmental)
        } else if b == 'G' as u8 {
            Ok(CommodityUnderlying::Freight)
        } else if b == 'P' as u8 {
            Ok(CommodityUnderlying::Polypropylene)
        } else if b == 'S' as u8 {
            Ok(CommodityUnderlying::Fertilizer)
        } else if b == 'T' as u8 {
            Ok(CommodityUnderlying::Paper)
        } else if b == 'I' as u8 {
            Ok(CommodityUnderlying::SingleIndex)
        } else if b == 'H' as u8 {
            Ok(CommodityUnderlying::MultiIndex)
        } else if b == 'B' as u8 {
            Ok(CommodityUnderlying::SingleBasket)
        } else if b == 'C' as u8 {
            Ok(CommodityUnderlying::MultiBasket)
        } else if b == 'Q' as u8 {
            Ok(CommodityUnderlying::Multi)
        } else if b == 'M' as u8 {
            Ok(CommodityUnderlying::Other)
        } else if b == 'X' as u8 {
            Ok(CommodityUnderlying::Undefined)
        } else {
            Err(Error::InvalidAttribute(pos, b))
        }
    }

    /// The byte this value encodes to; the inverse of decoding.
    pub fn to_byte(&self) -> (r: u8)
        ensures
            r == self.spec_byte(),
    {
        match self {
            CommodityUnderlying::Energy => 'J' as u8,
            CommodityUnderlying::Metals => 'K' as u8,
            CommodityUnderlying::Agriculture => 'A' as u8,
            CommodityUnderlying::Environmental => 'N' as u8,
            CommodityUnderlying::Freight => 'G' as u8,
            CommodityUnderlying::Polypropylene => 'P' as u8,
            CommodityUnderlying::Fertilizer => 'S' as u8,
            CommodityUnderlying::Paper => 'T' as u8,
            CommodityUnderlying::SingleIndex => 'I' as u8,
            CommodityUnderlying::MultiIndex => 'H' as u8,
            CommodityUnderlying::SingleBasket => 'B' as u8,
            CommodityUnderlying::MultiBasket => 'C' as u8,
            CommodityUnderlying::Multi => 'Q' as u8,
            CommodityUnderlying::Other => 'M' as u8,
            CommodityUnderlying::Undefined => 'X' as u8,
        }
    }

    /// Check if this value is [`CommodityUnderlying::Energy`].
    pub fn is_energy(&self) -> (r: bool)
        ensures
            r == (self is Energy),
    {
        matches!(self, CommodityUnderlying::Energy)
    }

    /// Check if this value is [`CommodityUnderlying::Metals`].
    pub fn is_metals(&self) -> (r: bool)
        ensures
            r == (self is Metals),
    {
        matches!(self, CommodityUnderlying::Metals)
    }

    /// Check if this value is [`CommodityUnderlying::Agriculture`].
    pub fn is_agriculture(&self) -> (r: bool)
        ensures
            r == (self is Agriculture),
    {
        matches!(self, CommodityUnderlying::Agriculture)
    }

    /// Check if this value is [`CommodityUnderlying::Environmental`].
    pub fn is_environmental(&self) -> (r: bool)
        ensures
            r == (self is Environmental),
    {
        matches!(self, CommodityUnderlying::Environmental)
    }

    /// Check if this value is [`CommodityUnderlying::Freight`].
    pub fn is_freight(&self) -> (r: bool)
        ensures
            r == (self is Freight),
    {
        matches!(self, CommodityUnderlying::Freight)
    }

    /// Check if this value is [`CommodityUnderlying::Polypropylene`].
    pub fn is_polypropylene(&self) -> (r: bool)
        ensures
            r == (self is Polypropylene),
    {
        matches!(self, CommodityUnderlying::Polypropylene)
    }

    /// Check if this value is [`CommodityUnderlying::Fertilizer`].
    pub fn is_fertilizer(&self) -> (r: bool)
        ensures
            r == (self is Fertilizer),
    {
        matches!(self, CommodityUnderlying::Fertilizer)
    }

    /// Check if this value is [`CommodityUnderlying::Paper`].
    pub fn is_paper(&self) -> (r: bool)
        ensures
            r == (self is Paper),
    {
        matches!(self, CommodityUnderlying::Paper)
    }

    /// Check if this value is [`CommodityUnderlying::SingleIndex`].
    pub fn is_single_index(&self) -> (r: bool)
        ensures
            r == (self is SingleIndex),
    {
        matches!(self, CommodityUnderlying::SingleIndex)
    }

    /// Check if this value is [`CommodityUnderlying::MultiIndex`].
    pub fn is_multi_index(&self) -> (r: bool)
        ensures
            r == (self is MultiIndex),
    {
        matches!(self, CommodityUnderlying::MultiIndex)
    }

    /// Check if this value is [`CommodityUnderlying::SingleBasket`].
    pub fn is_single_basket(&self) -> (r: bool)
        ensures
            r == (self is SingleBasket),
    {
        matches!(self, CommodityUnderlying::SingleBasket)
    }

    /// Check if this value is [`CommodityUnderlying::MultiBasket`].
    pub fn is_multi_basket(&self) -> (r: bool)
        ensures
            r == (self is MultiBasket),
    {
        matches!(self, CommodityUnderlying::MultiBasket)
    }

    /// Check if this value is [`CommodityUnderlying::Multi`].
    pub fn is_multi(&self) -> (r: bool)
        ensures
            r == (self is Multi),
    {
        matches!(self, CommodityUnderlying::Multi)
    }

    /// Check if this value is [`CommodityUnderlying::Other`].
    pub fn is_other(&self) -> (r: bool)
        ensures
            r == (self is Other),
    {
        matches!(self, CommodityUnderlying::Other)
    }

    /// Check if this value is [`CommodityUnderlying::Undefined`].
    pub fn is_undefined(&self) -> (r: bool)
        ensures
            r == (self is Undefined),
    {
        matches!(self, CommodityUnderlying::Undefined)
    }
}

/// Return or payout trigger.
#[derive(Clone, Copy, Debug, Eq, Hash, Ord, PartialEq, PartialOrd, Structural)]
pub enum CommodityPayout {
    /// `C`: Contract for difference (CFD).
    Cfd,
    /// `T`: Total return.
    TotalReturn,
    /// `X`: Not applicable or undefined.
    Undefined,
}

impl CommodityPayout {
    /// The code character assigned to this value.
    pub open spec fn spec_byte(self) -> u8 {
        match self {
            CommodityPayout::Cfd => 'C' as u8,
            CommodityPayout::TotalReturn => 'T' as u8,
            CommodityPayout::Undefined => 'X' as u8,
        }
    }

    /// The member encoded by `b`, if `b` lies in this attribute's alphabet.
    pub open spec fn spec_decode(b: u8) -> Option<CommodityPayout> {
        if b == 'C' as u8 {
            Some(CommodityPayout::Cfd)
        } else if b == 'T' as u8 {
            Some(CommodityPayout::TotalReturn)
        } else if b == 'X' as u8 {
            Some(CommodityPayout::Undefined)
        } else {
            None
        }
    }

    /// Decode the attribute byte found at position `pos` of a code.
    pub fn from_byte(b: u8, pos: usize) -> (r: Result<CommodityPayout, Error>)
        ensures
            match CommodityPayout::spec_decode(b) {
                Some(a) => r == Ok::<CommodityPayout, Error>(a),
                None => r == Err::<CommodityPayout, Error>(Error::InvalidAttribute(pos, b)),
            },
    {
        if b == 'C' as u8 {
            Ok(CommodityPayout::Cfd)
        } else if b == 'T' as u8 {
            Ok(CommodityPayout::TotalReturn)
        } else if b == 'X' as u8 {
            Ok(CommodityPayout::Undefined)
        } else {
            Err(Error::InvalidAttribute(pos, b))
        }
    }

    /// The byte this value encodes to; the inverse of decoding.
    pub fn to_byte(&self) -> (r: u8)
        ensures
            r == self.spec_byte(),
    {
        match self {
            CommodityPayout::Cfd => 'C' as u8,
            CommodityPayout::TotalReturn => 'T' as u8,
            CommodityPayout::Undefined => 'X' as u8,
        }
    }

    /// Check if this value is [`CommodityPayout::Cfd`].
    pub fn is_cfd(&self) -> (r: bool)
        ensures
            r == (self is Cfd),
    {
        matches!(self, CommodityPayout::Cfd)
    }

    /// Check if this value is [`CommodityPayout::TotalReturn`].
    pub fn is_total_return(&self) -> (r: bool)
        ensures
            r == (self is TotalReturn),
    {
        matches!(self, CommodityPayout::TotalReturn)
    }

    /// Check if this value is [`CommodityPayout::Undefined`].
    pub fn is_undefined(&self) -> (r: bool)
        ensures
            r == (self is Undefined),
    {
        matches!(self, CommodityPayout::Undefined)
    }
}

/// Commodity Delivery.
#[derive(Clone, Copy, Debug, Eq, Hash, Ord, PartialEq, PartialOrd, Structural)]
pub enum CommodityDelivery {
    /// `C`: Cash.
    Cash,
    /// `P`: Physical.
    Physical,
    /// `E`: Elect at settlement (determined at the time of settlement).
    ElectAtSettlement,
    /// `X`: Not applicable or undefined.
    Undefined,
}

impl CommodityDelivery {
    /// The code character assigned to this value.
    pub open spec fn spec_byte(self) -> u8 {
        match self {
            CommodityDelivery::Cash => 'C' as u8,
            CommodityDelivery::Physical => 'P' as u8,
            CommodityDelivery::ElectAtSettlement => 'E' as u8,
            CommodityDelivery::Undefined => 'X' as u8,
        }
    }

    /// The member encoded by `b`, if `b` lies in this attribute's alphabet.
    pub open spec fn spec_decode(b: u8) -> Option<CommodityDelivery> {
        if b == 'C' as u8 {
            Some(CommodityDelivery::Cash)
        } else if b == 'P' as u8 {
            Some(CommodityDelivery::Physical)
        } else if b == 'E' as u8 {
            Some(CommodityDelivery::ElectAtSettlement)
        } else if b == 'X' as u8 {
            Some(CommodityDelivery::Undefined)
        } else {
            None
        }
    }

    /// Decode the attribute byte found at position `pos` of a code.
    pub fn from_byte(b: u8, pos: usize) -> (r: Result<CommodityDelivery, Error>)
        ensures
            match CommodityDelivery::spec_decode(b) {
                Some(a) => r == Ok::<CommodityDelivery, Error>(a),
                None => r == Err::<CommodityDelivery, Error>(Error::InvalidAttribute(pos, b)),
            },
    {
        if b == 'C' as u8 {
            Ok(CommodityDelivery::Cash)
        } else if b == 'P' as u8 {
            Ok(CommodityDelivery::Physical)
        } else if b == 'E' as u8 {
            Ok(CommodityDelivery::ElectAtSettlement)
        } else if b == 'X' as u8 {
            Ok(CommodityDelivery::Undefined)
        } else {
            Err(Error::InvalidAttribute(pos, b))
        }
    }

    /// The byte this value encodes to; the inverse of decoding.
    pub fn to_byte(&self) -> (r: u8)
        ensures
            r == self.spec_byte(),
    {
        match self {
            CommodityDelivery::Cash => 'C' as u8,
            CommodityDelivery::Physical => 'P' as u8,
            CommodityDelivery::ElectAtSettlement => 'E' as u8,
            CommodityDelivery::Undefined => 'X' as u8,
        }
    }

    /// Check if this value is [`CommodityDelivery::Cash`].
    pub fn is_cash(&self) -> (r: bool)
        ensures
            r == (self is Cash),
    {
        matches!(self, CommodityDelivery::Cash)
    }

    /// Check if this value is [`CommodityDelivery::Physical`].
    pub fn is_physical(&self) -> (r: bool)
        ensures
            r == (self is Physical),
    {
        matches!(self, CommodityDelivery::Physical)
    }

    /// Check if this value is [`CommodityDelivery::ElectAtSettlement`].
    pub fn is_elect_at_settlement(&self) -> (r: bool)
        ensures
            r == (self is ElectAtSettlement),
    {
        matches!(self, CommodityDelivery::ElectAtSettlement)
    }

    /// Check if this value is [`CommodityDelivery::Undefined`].
    pub fn is_undefined(&self) -> (r: bool)
        ensures
            r == (self is Undefined),
    {
        matches!(self, CommodityDelivery::Undefined)
    }
}

/// Underlying equity assets.
#[derive(Clone, Copy, Debug, Eq, Hash, Ord, PartialEq, PartialOrd, Structural)]
pub enum EquityUnderlying {
    /// `S`: Single stock (single name security).
    Single,
    /// `I`: Index.
    Index,
    /// `B`: Basket.
    Basket,
    /// `M`: Others (miscellaneous).
    Other,
    /// `X`: Not applicable or undefined.
    Undefined,
}

impl EquityUnderlying {
    /// The code character assigned to this value.
    pub open spec fn spec_byte(self) -> u8 {
        match self {
            EquityUnderlying::Single => 'S' as u8,
            EquityUnderlying::Index => 'I' as u8,
            EquityUnderlying::Basket => 'B' as u8,
            EquityUnderlying::Other => 'M' as u8,
            EquityUnderlying::Undefined => 'X' as u8,
        }
    }

    /// The member encoded by `b`, if `b` lies in this attribute's alphabet.
    pub open spec fn spec_decode(b: u8) -> Option<EquityUnderlying> {
        if b == 'S' as u8 {
            Some(EquityUnderlying::Single)
        } else if b == 'I' as u8 {
            Some(EquityUnderlying::Index)
        } else if b == 'B' as u8 {
            Some(EquityUnderlying::Basket)
        } else if b == 'M' as u8 {
            Some(EquityUnderlying::Other)
        } else if b == 'X' as u8 {
            Some(EquityUnderlying::Undefined)
        } else {
            None
        }
    }

    /// Decode the attribute byte found at position `pos` of a code.
    pub fn from_byte(b: u8, pos: usize) -> (r: Result<EquityUnderlying, Error>)
        ensures
            match EquityUnderlying::spec_decode(b) {
                Some(a) => r == Ok::<EquityUnderlying, Error>(a),
                None => r == Err::<EquityUnderlying, Error>(Error::InvalidAttribute(pos, b)),
            },
    {
        if b == 'S' as u8 {
            Ok(EquityUnderlying::Single)
        } else if b == 'I' as u8 {
            Ok(EquityUnderlying::Index)
        } else if b == 'B' as u8 {
            Ok(EquityUnderlying::Basket)
        } else if b == 'M' as u8 {
            Ok(EquityUnderlying::Other)
        } else if b == 'X' as u8 {
            Ok(EquityUnderlying::Undefined)
        } else {
            Err(Error::InvalidAttribute(pos, b))
        }
    }

    /// The byte this value encodes to; the inverse of decoding.
    pub fn to_byte(&self) -> (r: u8)
        ensures
            r == self.spec_byte(),
    {
        match self {
            EquityUnderlying::Single => 'S' as u8,
            EquityUnderlying::Index => 'I' as u8,
            EquityUnderlying::Basket => 'B' as u8,
            EquityUnderlying::Other => 'M' as u8,
            EquityUnderlying::Undefined => 'X' as u8,
        }
    }

    /// Check if this value is [`EquityUnderlying::Single`].
    pub fn is_single(&self) -> (r: bool)
        ensures
            r == (self is Single),
    {
        matches!(self, EquityUnderlying::Single)
    }

    /// Check if this value is [`EquityUnderlying::Index`].
    pub fn is_index(&self) -> (r: bool)
        ensures
            r == (self is Index),
    {
        matches!(self, EquityUnderlying::Index)
    }

    /// Check if this value is [`EquityUnderlying::Basket`].
    pub fn is_basket(&self) -> (r: bool)
        ensures
            r == (self is Basket),
    {
        matches!(self, EquityUnderlying::Basket)
    }

    /// Check if this value is [`EquityUnderlying::Other`].
    pub fn is_other(&self) -> (r: bool)
        ensures
            r == (self is Other),
    {
        matches!(self, EquityUnderlying::Other)
    }

    /// Check if this value is [`EquityUnderlying::Undefined`].
    pub fn is_undefined(&self) -> (r: bool)
        ensures
            r == (self is Undefined),
    {
        matches!(self, EquityUnderlying::Undefined)
    }
}

/// Equity return or payout trigger.
#[derive(Clone, Copy, Debug, Eq, Hash, Ord, PartialEq, PartialOrd, Structural)]
pub enum EquityPayout {
    /// `P`: Price.
    Price,
    /// `D`: Dividend.
    Dividend,
    /// `V`: Variance.
    Variance,
    /// `L`: Volatility.
    Volatility,
    /// `T`: Total return.
    TotalReturn,
    /// `C`: CFD.
    Cfd,
    /// `M`: Others (miscellaneous).
    Other,
    /// `X`: Not applicable or undefined.
    Undefined,
}

impl EquityPayout {
    /// The code character assigned to this value.
    pub open spec fn spec_byte(self) -> u8 {
        match self {
            EquityPayout::Price => 'P' as u8,
            EquityPayout::Dividend => 'D' as u8,
            EquityPayout::Variance => 'V' as u8,
            EquityPayout::Volatility => 'L' as u8,
            EquityPayout::TotalReturn => 'T' as u8,
            EquityPayout::Cfd => 'C' as u8,
            EquityPayout::Other => 'M' as u8,
            EquityPayout::Undefined => 'X' as u8,
        }
    }

    /// The member encoded by `b`, if `b` lies in this attribute's alphabet.
    pub open spec fn spec_decode(b: u8) -> Option<EquityPayout> {
        if b == 'P' as u8 {
            Some(EquityPayout::Price)
        } else if b == 'D' as u8 {
            Some(EquityPayout::Dividend)
        } else if b == 'V' as u8 {
            Some(EquityPayout::Variance)
        } else if b == 'L' as u8 {
            Some(EquityPayout::Volatility)
        } else if b == 'T' as u8 {
            Some(EquityPayout::TotalReturn)
        } else if b == 'C' as u8 {
            Some(EquityPayout::Cfd)
        } else if b == 'M' as u8 {
            Some(EquityPayout::Other)
        } else if b == 'X' as u8 {
            Some(EquityPayout::Undefined)
        } else {
            None
        }
    }

    /// Decode the attribute byte found at position `pos` of a code.
    pub fn from_byte(b: u8, pos: usize) -> (r: Result<EquityPayout, Error>)
        ensures
            match EquityPayout::spec_decode(b) {
                Some(a) => r == Ok::<EquityPayout, Error>(a),
                None => r == Err::<EquityPayout, Error>(Error::InvalidAttribute(pos, b)),
            },
    {
        if b == 'P' as u8 {
            Ok(EquityPayout::Price)
        } else if b == 'D' as u8 {
            Ok(EquityPayout::Dividend)
        } else if b == 'V' as u8 {
            Ok(EquityPayout::Variance)
        } else if b == 'L' as u8 {
            Ok(EquityPayout::Volatility)
        } else if b == 'T' as u8 {
            Ok(EquityPayout::TotalReturn)
        } else if b == 'C' as u8 {
            Ok(EquityPayout::Cfd)
        } else if b == 'M' as u8 {
            Ok(EquityPayout::Other)
        } else if b == 'X' as u8 {
            Ok(EquityPayout::Undefined)
        } else {
            Err(Error::InvalidAttribute(pos, b))
        }
    }

    /// The byte this value encodes to; the inverse of decoding.
    pub fn to_byte(&self) -> (r: u8)
        ensures
            r == self.spec_byte(),
    {
        match self {
            EquityPayout::Price => 'P' as u8,
            EquityPayout::Dividend => 'D' as u8,
            EquityPayout::Variance => 'V' as u8,
            EquityPayout::Volatility => 'L' as u8,
            EquityPayout::TotalReturn => 'T' as u8,
            EquityPayout::Cfd => 'C' as u8,
            EquityPayout::Other => 'M' as u8,
            EquityPayout::Undefined => 'X' as u8,
        }
    }

    /// Check if this value is [`EquityPayout::Price`].
    pub fn is_price(&self) -> (r: bool)
        ensures
            r == (self is Price),
    {
        matches!(self, EquityPayout::Price)
    }

    /// Check if this value is [`EquityPayout::Dividend`].
    pub fn is_dividend(&self) -> (r: bool)
        ensures
            r == (self is Dividend),
    {
        matches!(self, EquityPayout::Dividend)
    }

    /// Check if this value is [`EquityPayout::Variance`].
    pub fn is_variance(&self) -> (r: bool)
        ensures
            r == (self is Variance),
    {
        matches!(self, EquityPayout::Variance)
    }

    /// Check if this value is [`EquityPayout::Volatility`].
    pub fn is_volatility(&self) -> (r: bool)
        ensures
            r == (self is Volatility),
    {
        matches!(self, EquityPayout::Volatility)
    }

    /// Check if this value is [`EquityPayout::TotalReturn`].
    pub fn is_total_return(&self) -> (r: bool)
        ensures
            r == (self is TotalReturn),
    {
        matches!(self, EquityPayout::TotalReturn)
    }

    /// Check if this value is [`EquityPayout::Cfd`].
    pub fn is_cfd(&self) -> (r: bool)
        ensures
            r == (self is Cfd),
    {
        matches!(self, EquityPayout::Cfd)
    }

    /// Check if this value is [`EquityPayout::Other`].
    pub fn is_other(&self) -> (r: bool)
        ensures
            r == (self is Other),
    {
        matches!(self, EquityPayout::Other)
    }

    /// Check if this value is [`EquityPayout::Undefined`].
    pub fn is_undefined(&self) -> (r: bool)
        ensures
            r == (self is Undefined),
    {
        matches!(self, EquityPayout::Undefined)
    }
}

/// Equity Delivery.
#[derive(Clone, Copy, Debug, Eq, Hash, Ord, PartialEq, PartialOrd, Structural)]
pub enum EquityDelivery {
    /// `C`: Cash.
    Cash,
    /// `P`: Physical.
    Physical,
    /// `E`: Elect at settlement (determined at the time of settlement).
    ElectAtSettlement,
    /// `X`: Not applicable or undefined.
    Undefined,
}

impl EquityDelivery {
    /// The code character assigned to this value.
    pub open spec fn spec_byte(self) -> u8 {
        match self {
            EquityDelivery::Cash => 'C' as u8,
            EquityDelivery::Physical => 'P' as u8,
            EquityDelivery::ElectAtSettlement => 'E' as u8,
            EquityDelivery::Undefined => 'X' as u8,
        }
    }

    /// The member encoded by `b`, if `b` lies in this attribute's alphabet.
    pub open spec fn spec_decode(b: u8) -> Option<EquityDelivery> {
        if b == 'C' as u8 {
            Some(EquityDelivery::Cash)
        } else if b == 'P' as u8 {
            Some(EquityDelivery::Physical)
        } else if b == 'E' as u8 {
            Some(EquityDelivery::ElectAtSettlement)
        } else if b == 'X' as u8 {
            Some(EquityDelivery::Undefined)
        } else {
            None
        }
    }

    /// Decode the attribute byte found at position `pos` of a code.
    pub fn from_byte(b: u8, pos: usize) -> (r: Result<EquityDelivery, Error>)
        ensures
            match EquityDelivery::spec_decode(b) {
                Some(a) => r == Ok::<EquityDelivery, Error>(a),
                None => r == Err::<EquityDelivery, Error>(Error::InvalidAttribute(pos, b)),
            },
    {
        if b == 'C' as u8 {
            Ok(EquityDelivery::Cash)
        } else if b == 'P' as u8 {
            Ok(EquityDelivery::Physical)
        } else if b == 'E' as u8 {
            Ok(EquityDelivery::ElectAtSettlement)
        } else if b == 'X' as u8 {
            Ok(EquityDelivery::Undefined)
        } else {
            Err(Error::InvalidAttribute(pos, b))
        }
    }

    /// The byte this value encodes to; the inverse of decoding.
    pub fn to_byte(&self) -> (r: u8)
        ensures
            r == self.spec_byte(),
    {
        match self {
            EquityDelivery::Cash => 'C' as u8,
            EquityDelivery::Physical => 'P' as u8,
            EquityDelivery::ElectAtSettlement => 'E' as u8,
            EquityDelivery::Undefined => 'X' as u8,
        }
    }

    /// Check if this value is [`EquityDelivery::Cash`].
    pub fn is_cash(&self) -> (r: bool)
        ensures
            r == (self is Cash),
    {
        matches!(self, EquityDelivery::Cash)
    }

    /// Check if this value is [`EquityDelivery::Physical`].
    pub fn is_physical(&self) -> (r: bool)
        ensures
            r == (self is Physical),
    {
        matches!(self, EquityDelivery::Physical)
    }

    /// Check if this value is [`EquityDelivery::ElectAtSettlement`].
    pub fn is_elect_at_settlement(&self) -> (r: bool)
        ensures
            r == (self is ElectAtSettlement),
    {
        matches!(self, EquityDelivery::ElectAtSettlement)
    }

    /// Check if this value is [`EquityDelivery::Undefined`].
    pub fn is_undefined(&self) -> (r: bool)
        ensures
            r == (self is Undefined),
    {
        matches!(self, EquityDelivery::Undefined)
    }
}

/// Underlying credit assets.
#[derive(Clone, Copy, Debug, Eq, Hash, Ord, PartialEq, PartialOrd, Structural)]
pub enum CreditUnderlying {
    /// `U`: Single name.
    Single,
    /// `V`: Index tranche.
    IndexTranche,
    /// `I`: Index.
    Index,
    /// `B`: Basket.
    Basket,
    /// `M`: Others (miscellaneous).
    Other,
    /// `X`: Not applicable or undefined.
    Undefined,
}

impl CreditUnderlying {
    /// The code character assigned to this value.
    pub open spec fn spec_byte(self) -> u8 {
        match self {
            CreditUnderlying::Single => 'U' as u8,
            CreditUnderlying::IndexTranche => 'V' as u8,
            CreditUnderlying::Index => 'I' as u8,
            CreditUnderlying::Basket => 'B' as u8,
            CreditUnderlying::Other => 'M' as u8,
            CreditUnderlying::Undefined => 'X' as u8,
        }
    }

    /// The member encoded by `b`, if `b` lies in this attribute's alphabet.
    pub open spec fn spec_decode(b: u8) -> Option<CreditUnderlying> {
        if b == 'U' as u8 {
            Some(CreditUnderlying::Single)
        } else if b == 'V' as u8 {
            Some(CreditUnderlying::IndexTranche)
        } else if b == 'I' as u8 {
            Some(CreditUnderlying::Index)
        } else if b == 'B' as u8 {
            Some(CreditUnderlying::Basket)
        } else if b == 'M' as u8 {
            Some(CreditUnderlying::Other)
        } else if b == 'X' as u8 {
            Some(CreditUnderlying::Undefined)
        } else {
            None
        }
    }

    /// Decode the attribute byte found at position `pos` of a code.
    pub fn from_byte(b: u8, pos: usize) -> (r: Result<CreditUnderlying, Error>)
        ensures
            match CreditUnderlying::spec_decode(b) {
                Some(a) => r == Ok::<CreditUnderlying, Error>(a),
                None => r == Err::<CreditUnderlying, Error>(Error::InvalidAttribute(pos, b)),
            },
    {
        if b == 'U' as u8 {
            Ok(CreditUnderlying::Single)
        } else if b == 'V' as u8 {
            Ok(CreditUnderlying::IndexTranche)
        } else if b == 'I' as u8 {
            Ok(CreditUnderlying::Index)
        } else if b == 'B' as u8 {
            Ok(CreditUnderlying::Basket)
        } else if b == 'M' as u8 {
            Ok(CreditUnderlying::Other)
        } else if b == 'X' as u8 {
            Ok(CreditUnderlying::Undefined)
        } else {
            Err(Error::InvalidAttribute(pos, b))
        }
    }

    /// The byte this value encodes to; the inverse of decoding.
    pub fn to_byte(&self) -> (r: u8)
        ensures
            r == self.spec_byte(),
    {
        match self {
            CreditUnderlying::Single => 'U' as u8,
            CreditUnderlying::IndexTranche => 'V' as u8,
            CreditUnderlying::Index => 'I' as u8,
            CreditUnderlying::Basket => 'B' as u8,
            CreditUnderlying::Other => 'M' as u8,
            CreditUnderlying::Undefined => 'X' as u8,
        }
    }

    /// Check if this value is [`CreditUnderlying::Single`].
    pub fn is_single(&self) -> (r: bool)
        ensures
            r == (self is Single),
    {
        matches!(self, CreditUnderlying::Single)
    }

    /// Check if this value is [`CreditUnderlying::IndexTranche`].
    pub fn is_index_tranche(&self) -> (r: bool)
        ensures
            r == (self is IndexTranche),
    {
        matches!(self, CreditUnderlying::IndexTranche)
    }

    /// Check if this value is [`CreditUnderlying::Index`].
    pub fn is_index(&self) -> (r: bool)
        ensures
            r == (self is Index),
    {
        matches!(self, CreditUnderlying::Index)
    }

    /// Check if this value is [`CreditUnderlying::Basket`].
    pub fn is_basket(&self) -> (r: bool)
        ensures
            r == (self is Basket),
    {
        matches!(self, CreditUnderlying::Basket)
    }

    /// Check if this value is [`CreditUnderlying::Other`].
    pub fn is_other(&self) -> (r: bool)
        ensures
            r == (self is Other),
    {
        matches!(self, CreditUnderlying::Other)
    }

    /// Check if this value is [`CreditUnderlying::Undefined`].
    pub fn is_undefined(&self) -> (r: bool)
        ensures
            r == (self is Undefined),
    {
        matches!(self, CreditUnderlying::Undefined)
    }
}

/// Credit return or payout trigger.
#[derive(Clone, Copy, Debug, Eq, Hash, Ord, PartialEq, PartialOrd, Structural)]
pub enum CreditPayout {
    /// `C`: Credit default.
    CreditDefault,
    /// `T`: Total return.
    TotalReturn,
    /// `M`: Others (miscellaneous).
    Other,
    /// `X`: Not applicable or undefined.
    Undefined,
}

impl CreditPayout {
    /// The code character assigned to this value.
    pub open spec fn spec_byte(self) -> u8 {
        match self {
            CreditPayout::CreditDefault => 'C' as u8,
            CreditPayout::TotalReturn => 'T' as u8,
            CreditPayout::Other => 'M' as u8,
            CreditPayout::Undefined => 'X' as u8,
        }
    }

    /// The member encoded by `b`, if `b` lies in this attribute's alphabet.
    pub open spec fn spec_decode(b: u8) -> Option<CreditPayout> {
        if b == 'C' as u8 {
            Some(CreditPayout::CreditDefault)
        } else if b == 'T' as u8 {
            Some(CreditPayout::TotalReturn)
        } else if b == 'M' as u8 {
            Some(CreditPayout::Other)
        } else if b == 'X' as u8 {
            Some(CreditPayout::Undefined)
        } else {
            None
        }
    }

    /// Decode the attribute byte found at position `pos` of a code.
    pub fn from_byte(b: u8, pos: usize) -> (r: Result<CreditPayout, Error>)
        ensures
            match CreditPayout::spec_decode(b) {
                Some(a) => r == Ok::<CreditPayout, Error>(a),
                None => r == Err::<CreditPayout, Error>(Error::InvalidAttribute(pos, b)),
            },
    {
        if b == 'C' as u8 {
            Ok(CreditPayout::CreditDefault)
        } else if b == 'T' as u8 {
            Ok(CreditPayout::TotalReturn)
        } else if b == 'M' as u8 {
            Ok(CreditPayout::Other)
        } else if b == 'X' as u8 {
            Ok(CreditPayout::Undefined)
        } else {
            Err(Error::InvalidAttribute(pos, b))
        }
    }

    /// The byte this value encodes to; the inverse of decoding.
    pub fn to_byte(&self) -> (r: u8)
        ensures
            r == self.spec_byte(),
    {
        match self {
            CreditPayout::CreditDefault => 'C' as u8,
            CreditPayout::TotalReturn => 'T' as u8,
            CreditPayout::Other => 'M' as u8,
            CreditPayout::Undefined => 'X' as u8,
        }
    }

    /// Check if this value is [`CreditPayout::CreditDefault`].
    pub fn is_credit_default(&self) -> (r: bool)
        ensures
            r == (self is CreditDefault),
    {
        matches!(self, CreditPayout::CreditDefault)
    }

    /// Check if this value is [`CreditPayout::TotalReturn`].
    pub fn is_total_return(&self) -> (r: bool)
        ensures
            r == (self is TotalReturn),
    {
        matches!(self, CreditPayout::TotalReturn)
    }

    /// Check if this value is [`CreditPayout::Other`].
    pub fn is_other(&self) -> (r: bool)
        ensures
            r == (self is Other),
    {
        matches!(self, CreditPayout::Other)
    }

    /// Check if this value is [`CreditPayout::Undefined`].
    pub fn is_undefined(&self) -> (r: bool)
        ensures
            r == (self is Undefined),
    {
        matches!(self, CreditPayout::Undefined)
    }
}

/// Underlying issuer type.
#[derive(Clone, Copy, Debug, Eq, Hash, Ord, PartialEq, PartialOrd, Structural)]
pub enum CreditIssuer {
    /// `C`: Corporate entity.
    Corporate,
    /// `S`: Sovereign entity.
    Sovereign,
    /// `L`: Local.
    Local,
    /// `X`: Not applicable or undefined.
    Undefined,
}

impl CreditIssuer {
    /// The code character assigned to this value.
    pub open spec fn spec_byte(self) -> u8 {
        match self {
            CreditIssuer::Corporate => 'C' as u8,
            CreditIssuer::Sovereign => 'S' as u8,
            CreditIssuer::Local => 'L' as u8,
            CreditIssuer::Undefined => 'X' as u8,
        }
    }

    /// The member encoded by `b`, if `b` lies in this attribute's alphabet.
    pub open spec fn spec_decode(b: u8) -> Option<CreditIssuer> {
        if b == 'C' as u8 {
            Some(CreditIssuer::Corporate)
        } else if b == 'S' as u8 {
            Some(CreditIssuer::Sovereign)
        } else if b == 'L' as u8 {
            Some(CreditIssuer::Local)
        } else if b == 'X' as u8 {
            Some(CreditIssuer::Undefined)
        } else {
            None
        }
    }

    /// Decode the attribute byte found at position `pos` of a code.
    pub fn from_byte(b: u8, pos: usize) -> (r: Result<CreditIssuer, Error>)
        ensures
            match CreditIssuer::spec_decode(b) {
                Some(a) => r == Ok::<CreditIssuer, Error>(a),
                None => r == Err::<CreditIssuer, Error>(Error::InvalidAttribute(pos, b)),
            },
    {
        if b == 'C' as u8 {
            Ok(CreditIssuer::Corporate)
        } else if b == 'S' as u8 {
            Ok(CreditIssuer::Sovereign)
        } else if b == 'L' as u8 {
            Ok(CreditIssuer::Local)
        } else if b == 'X' as u8 {
            Ok(CreditIssuer::Undefined)
        } else {
            Err(Error::InvalidAttribute(pos, b))
        }
    }

    /// The byte this value encodes to; the inverse of decoding.
    pub fn to_byte(&self) -> (r: u8)
        ensures
            r == self.spec_byte(),
    {
        match self {
            CreditIssuer::Corporate => 'C' as u8,
            CreditIssuer::Sovereign => 'S' as u8,
            CreditIssuer::Local => 'L' as u8,
            CreditIssuer::Undefined => 'X' as u8,
        }
    }

    /// Check if this value is [`CreditIssuer::Corporate`].
    pub fn is_corporate(&self) -> (r: bool)
        ensures
            r == (self is Corporate),
    {
        matches!(self, CreditIssuer::Corporate)
    }

    /// Check if this value is [`CreditIssuer::Sovereign`].
    pub fn is_sovereign(&self) -> (r: bool)
        ensures
            r == (self is Sovereign),
    {
        matches!(self, CreditIssuer::Sovereign)
    }

    /// Check if this value is [`CreditIssuer::Local`].
    pub fn is_local(&self) -> (r: bool)
        ensures
            r == (self is Local),
    {
        matches!(self, CreditIssuer::Local)
    }

    /// Check if this value is [`CreditIssuer::Undefined`].
    pub fn is_undefined(&self) -> (r: bool)
        ensures
            r == (self is Undefined),
    {
        matches!(self, CreditIssuer::Undefined)
    }
}

/// Credit Delivery.
#[derive(Clone, Copy, Debug, Eq, Hash, Ord, PartialEq, PartialOrd, Structural)]
pub enum CreditDelivery {
    /// `C`: Cash.
    Cash,
    /// `P`: Physical.
    Physical,
    /// `A`: Auction.
    Auction,
    /// `X`: Not applicable or undefined.
    Undefined,
}

impl CreditDelivery {
    /// The code character assigned to this value.
    pub open spec fn spec_byte(self) -> u8 {
        match self {
            CreditDelivery::Cash => 'C' as u8,
            CreditDelivery::Physical => 'P' as u8,
            CreditDelivery::Auction => 'A' as u8,
            CreditDelivery::Undefined => 'X' as u8,
        }
    }

    /// The member encoded by `b`, if `b` lies in this attribute's alphabet.
    pub open spec fn spec_decode(b: u8) -> Option<CreditDelivery> {
        if b == 'C' as u8 {
            Some(CreditDelivery::Cash)
        } else if b == 'P' as u8 {
            Some(CreditDelivery::Physical)
        } else if b == 'A' as u8 {
            Some(CreditDelivery::Auction)
        } else if b == 'X' as u8 {
            Some(CreditDelivery::Undefined)
        } else {
            None
        }
    }

    /// Decode the attribute byte found at position `pos` of a code.
    pub fn from_byte(b: u8, pos: usize) -> (r: Result<CreditDelivery, Error>)
        ensures
            match CreditDelivery::spec_decode(b) {
                Some(a) => r == Ok::<CreditDelivery, Error>(a),
                None => r == Err::<CreditDelivery, Error>(Error::InvalidAttribute(pos, b)),
            },
    {
        if b == 'C' as u8 {
            Ok(CreditDelivery::Cash)
        } else if b == 'P' as u8 {
            Ok(CreditDelivery::Physical)
        } else if b == 'A' as u8 {
            Ok(CreditDelivery::Auction)
        } else if b == 'X' as u8 {
            Ok(CreditDelivery::Undefined)
        } else {
            Err(Error::InvalidAttribute(pos, b))
        }
    }

    /// The byte this value encodes to; the inverse of decoding.
    pub fn to_byte(&self) -> (r: u8)
        ensures
            r == self.spec_byte(),
    {
        match self {
            CreditDelivery::Cash => 'C' as u8,
            CreditDelivery::Physical => 'P' as u8,
            CreditDelivery::Auction => 'A' as u8,
            CreditDelivery::Undefined => 'X' as u8,
        }
    }

    /// Check if this value is [`CreditDelivery::Cash`].
    pub fn is_cash(&self) -> (r: bool)
        ensures
            r == (self is Cash),
    {
        matches!(self, CreditDelivery::Cash)
    }

    /// Check if this value is [`CreditDelivery::Physical`].
    pub fn is_physical(&self) -> (r: bool)
        ensures
            r == (self is Physical),
    {
        matches!(self, CreditDelivery::Physical)
    }

    /// Check if this value is [`CreditDelivery::Auction`].
    pub fn is_auction(&self) -> (r: bool)
        ensures
            r == (self is Auction),
    {
        matches!(self, CreditDelivery::Auction)
    }

    /// Check if this value is [`CreditDelivery::Undefined`].
    pub fn is_undefined(&self) -> (r: bool)
        ensures
            r == (self is Undefined),
    {
        matches!(self, CreditDelivery::Undefined)
    }
}

/// Forex underlying.
#[derive(Clone, Copy, Debug, Eq, Hash, Ord, PartialEq, PartialOrd, Structural)]
pub enum ForexUnderlying {
    /// `A`: Spot-forward swap.
    SpotForward,
    /// `C`: Forward-forward swap.
    ForwardForward,
    /// `M`: Others (miscellaneous).
    Other,
    /// `X`: Not applicable or undefined.
    Undefined,
}

impl ForexUnderlying {
    /// The code character assigned to this value.
    pub open spec fn spec_byte(self) -> u8 {
        match self {
            ForexUnderlying::SpotForward => 'A' as u8,
            ForexUnderlying::ForwardForward => 'C' as u8,
            ForexUnderlying::Other => 'M' as u8,
            ForexUnderlying::Undefined => 'X' as u8,
        }
    }

    /// The member encoded by `b`, if `b` lies in this attribute's alphabet.
    pub open spec fn spec_decode(b: u8) -> Option<ForexUnderlying> {
        if b == 'A' as u8 {
            Some(ForexUnderlying::SpotForward)
        } else if b == 'C' as u8 {
            Some(ForexUnderlying::ForwardForward)
        } else if b == 'M' as u8 {
            Some(ForexUnderlying::Other)
        } else if b == 'X' as u8 {
            Some(ForexUnderlying::Undefined)
        } else {
            None
        }
    }

    /// Decode the attribute byte found at position `pos` of a code.
    pub fn from_byte(b: u8, pos: usize) -> (r: Result<ForexUnderlying, Error>)
        ensures
            match ForexUnderlying::spec_decode(b) {
                Some(a) => r == Ok::<ForexUnderlying, Error>(a),
                None => r == Err::<ForexUnderlying, Error>(Error::InvalidAttribute(pos, b)),
            },
    {
        if b == 'A' as u8 {
            Ok(ForexUnderlying::SpotForward)
        } else if b == 'C' as u8 {
            Ok(ForexUnderlying::ForwardForward)
        } else if b == 'M' as u8 {
            Ok(ForexUnderlying::Other)
        } else if b == 'X' as u8 {
            Ok(ForexUnderlying::Undefined)
        } else {
            Err(Error::InvalidAttribute(pos, b))
        }
    }

    /// The byte this value encodes to; the inverse of decoding.
    pub fn to_byte(&self) -> (r: u8)
        ensures
            r == self.spec_byte(),
    {
        match self {
            ForexUnderlying::SpotForward => 'A' as u8,
            ForexUnderlying::ForwardForward => 'C' as u8,
            ForexUnderlying::Other => 'M' as u8,
            ForexUnderlying::Undefined => 'X' as u8,
        }
    }

    /// Check if this value is [`ForexUnderlying::SpotForward`].
    pub fn is_spot_forward(&self) -> (r: bool)
        ensures
            r == (self is SpotForward),
    {
        matches!(self, ForexUnderlying::SpotForward)
    }

    /// Check if this value is [`ForexUnderlying::ForwardForward`].
    pub fn is_forward_forward(&self) -> (r: bool)
        ensures
            r == (self is ForwardForward),
    {
        matches!(self, ForexUnderlying::ForwardForward)
    }

    /// Check if this value is [`ForexUnderlying::Other`].
    pub fn is_other(&self) -> (r: bool)
        ensures
            r == (self is Other),
    {
        matches!(self, ForexUnderlying::Other)
    }

    /// Check if this value is [`ForexUnderlying::Undefined`].
    pub fn is_undefined(&self) -> (r: bool)
        ensures
            r == (self is Undefined),
    {
        matches!(self, ForexUnderlying::Undefined)
    }
}

/// Forex delivery.
#[derive(Clone, Copy, Debug, Eq, Hash, Ord, PartialEq, PartialOrd, Structural)]
pub enum ForexDelivery {
    /// `P`: Physical (delivery of traded currencies on settlement date).
    Physical,
    /// `C`: Cash.
    Cash,
    /// `X`: Not applicable or undefined.
    Undefined,
}

impl ForexDelivery {
    /// The code character assigned to this value.
    pub open spec fn spec_byte(self) -> u8 {
        match self {
            ForexDelivery::Physical => 'P' as u8,
            ForexDelivery::Cash => 'C' as u8,
            ForexDelivery::Undefined => 'X' as u8,
        }
    }

    /// The member encoded by `b`, if `b` lies in this attribute's alphabet.
    pub open spec fn spec_decode(b: u8) -> Option<ForexDelivery> {
        if b == 'P' as u8 {
            Some(ForexDelivery::Physical)
        } else if b == 'C' as u8 {
            Some(ForexDelivery::Cash)
        } else if b == 'X' as u8 {
            Some(ForexDelivery::Undefined)
        } else {
            None
        }
    }

    /// Decode the attribute byte found at position `pos` of a code.
    pub fn from_byte(b: u8, pos: usize) -> (r: Result<ForexDelivery, Error>)
        ensures
            match ForexDelivery::spec_decode(b) {
                Some(a) => r == Ok::<ForexDelivery, Error>(a),
                None => r == Err::<ForexDelivery, Error>(Error::InvalidAttribute(pos, b)),
            },
    {
        if b == 'P' as u8 {
            Ok(ForexDelivery::Physical)
        } else if b == 'C' as u8 {
            Ok(ForexDelivery::Cash)
        } else if b == 'X' as u8 {
            Ok(ForexDelivery::Undefined)
        } else {
            Err(Error::InvalidAttribute(pos, b))
        }
    }

    /// The byte this value encodes to; the inverse of decoding.
    pub fn to_byte(&self) -> (r: u8)
        ensures
            r == self.spec_byte(),
    {
        match self {
            ForexDelivery::Physical => 'P' as u8,
            ForexDelivery::Cash => 'C' as u8,
            ForexDelivery::Undefined => 'X' as u8,
        }
    }

    /// Check if this value is [`ForexDelivery::Physical`].
    pub fn is_physical(&self) -> (r: bool)
        ensures
            r == (self is Physical),
    {
        matches!(self, ForexDelivery::Physical)
    }

    /// Check if this value is [`ForexDelivery::Cash`].
    pub fn is_cash(&self) -> (r: bool)
        ensures
            r == (self is Cash),
    {
        matches!(self, ForexDelivery::Cash)
    }

    /// Check if this value is [`ForexDelivery::Undefined`].
    pub fn is_undefined(&self) -> (r: bool)
        ensures
            r == (self is Undefined),
    {
        matches!(self, ForexDelivery::Undefined)
    }
}

/// Other underlying assets.
#[derive(Clone, Copy, Debug, Eq, Hash, Ord, PartialEq, PartialOrd, Structural)]
pub enum OtherUnderlying {
    /// `P`: Commercial property (or property derivative).
    CommercialProperty,
    /// `M`: Others (miscellaneous).
    Other,
    /// `X`: Not applicable or undefined.
    Undefined,
}

impl OtherUnderlying {
    /// The code character assigned to this value.
    pub open spec fn spec_byte(self) -> u8 {
        match self {
            OtherUnderlying::CommercialProperty => 'P' as u8,
            OtherUnderlying::Other => 'M' as u8,
            OtherUnderlying::Undefined => 'X' as u8,
        }
    }

    /// The member encoded by `b`, if `b` lies in this attribute's alphabet.
    pub open spec fn spec_decode(b: u8) -> Option<OtherUnderlying> {
        if b == 'P' as u8 {
            Some(OtherUnderlying::CommercialProperty)
        } else if b == 'M' as u8 {
            Some(OtherUnderlying::Other)
        } else if b == 'X' as u8 {
            Some(OtherUnderlying::Undefined)
        } else {
            None
        }
    }

    /// Decode the attribute byte found at position `pos` of a code.
    pub fn from_byte(b: u8, pos: usize) -> (r: Result<OtherUnderlying, Error>)
        ensures
            match OtherUnderlying::spec_decode(b) {
                Some(a) => r == Ok::<OtherUnderlying, Error>(a),
                None => r == Err::<OtherUnderlying, Error>(Error::InvalidAttribute(pos, b)),
            },
    {
        if b == 'P' as u8 {
            Ok(OtherUnderlying::CommercialProperty)
        } else if b == 'M' as u8 {
            Ok(OtherUnderlying::Other)
        } else if b == 'X' as u8 {
            Ok(OtherUnderlying::Undefined)
        } else {
            Err(Error::InvalidAttribute(pos, b))
        }
    }

    /// The byte this value encodes to; the inverse of decoding.
    pub fn to_byte(&self) -> (r: u8)
        ensures
            r == self.spec_byte(),
    {
        match self {
            OtherUnderlying::CommercialProperty => 'P' as u8,
            OtherUnderlying::Other => 'M' as u8,
            OtherUnderlying::Undefined => 'X' as u8,
        }
    }

    /// Check if this value is [`OtherUnderlying::CommercialProperty`].
    pub fn is_commercial_property(&self) -> (r: bool)
        ensures
            r == (self is CommercialProperty),
    {
        matches!(self, OtherUnderlying::CommercialProperty)
    }

    /// Check if this value is [`OtherUnderlying::Other`].
    pub fn is_other(&self) -> (r: bool)
        ensures
            r == (self is Other),
    {
        matches!(self, OtherUnderlying::Other)
    }

    /// Check if this value is [`OtherUnderlying::Undefined`].
    pub fn is_undefined(&self) -> (r: bool)
        ensures
            r == (self is Undefined),
    {
        matches!(self, OtherUnderlying::Undefined)
    }
}

/// Other delivery.
#[derive(Clone, Copy, Debug, Eq, Hash, Ord, PartialEq, PartialOrd, Structural)]
pub enum OtherDelivery {
    /// `C`: Cash.
    Cash,
    /// `P`: Physical.
    Physical,
    /// `E`: Elect at settlement (determined at the time of settlement).
    ElectAtSettlement,
    /// `X`: Not applicable or undefined.
    Undefined,
}

impl OtherDelivery {
    /// The code character assigned to this value.
    pub open spec fn spec_byte(self) -> u8 {
        match self {
            OtherDelivery::Cash => 'C' as u8,
            OtherDelivery::Physical => 'P' as u8,
            OtherDelivery::ElectAtSettlement => 'E' as u8,
            OtherDelivery::Undefined => 'X' as u8,
        }
    }

    /// The member encoded by `b`, if `b` lies in this attribute's alphabet.
    pub open spec fn spec_decode(b: u8) -> Option<OtherDelivery> {
        if b == 'C' as u8 {
            Some(OtherDelivery::Cash)
        } else if b == 'P' as u8 {
            Some(OtherDelivery::Physical)
        } else if b == 'E' as u8 {
            Some(OtherDelivery::ElectAtSettlement)
        } else if b == 'X' as u8 {
            Some(OtherDelivery::Undefined)
        } else {
            None
        }
    }

    /// Decode the attribute byte found at position `pos` of a code.
    pub fn from_byte(b: u8, pos: usize) -> (r: Result<OtherDelivery, Error>)
        ensures
            match OtherDelivery::spec_decode(b) {
                Some(a) => r == Ok::<OtherDelivery, Error>(a),
                None => r == Err::<OtherDelivery, Error>(Error::InvalidAttribute(pos, b)),
            },
    {
        if b == 'C' as u8 {
            Ok(OtherDelivery::Cash)
        } else if b == 'P' as u8 {
            Ok(OtherDelivery::Physical)
        } else if b == 'E' as u8 {
            Ok(OtherDelivery::ElectAtSettlement)
        } else if b == 'X' as u8 {
            Ok(OtherDelivery::Undefined)
        } else {
            Err(Error::InvalidAttribute(pos, b))
        }
    }

    /// The byte this value encodes to; the inverse of decoding.
    pub fn to_byte(&self) -> (r: u8)
        ensures
            r == self.spec_byte(),
    {
        match self {
            OtherDelivery::Cash => 'C' as u8,
            OtherDelivery::Physical => 'P' as u8,
            OtherDelivery::ElectAtSettlement => 'E' as u8,
            OtherDelivery::Undefined => 'X' as u8,
        }
    }

    /// Check if this value is [`OtherDelivery::Cash`].
    pub fn is_cash(&self) -> (r: bool)
        ensures
            r == (self is Cash),
    {
        matches!(self, OtherDelivery::Cash)
    }

    /// Check if this value is [`OtherDelivery::Physical`].
    pub fn is_physical(&self) -> (r: bool)
        ensures
            r == (self is Physical),
    {
        matches!(self, OtherDelivery::Physical)
    }

    /// Check if this value is [`OtherDelivery::ElectAtSettlement`].
    pub fn is_elect_at_settlement(&self) -> (r: bool)
        ensures
            r == (self is ElectAtSettlement),
    {
        matches!(self, OtherDelivery::ElectAtSettlement)
    }

    /// Check if this value is [`OtherDelivery::Undefined`].
    pub fn is_undefined(&self) -> (r: bool)
        ensures
            r == (self is Undefined),
    {
        matches!(self, OtherDelivery::Undefined)
    }
}

/// The encoding of a [`Swap::Rate`] value re-decodes to itself.
proof fn lemma_decode_encode_rate(a: Rate)
    ensures
        Swap::Rate(a).spec_bytes().len() == 6,
        Swap::Rate(a).spec_bytes()[0] == 'S' as u8,
        Swap::spec_decode(Swap::Rate(a).spec_bytes()) == Ok::<Swap, Error>(Swap::Rate(a)),
{
    let s = Swap::Rate(a).spec_bytes();
    assert(s.len() == 6);
    assert(s[1] == 'R' as u8);
    assert(s[2] == a.underlying.spec_byte());
    assert(RateUnderlying::spec_decode(s[2]) == Some(a.underlying));
    assert(s[3] == a.notional.spec_byte());
    assert(Notional::spec_decode(s[3]) == Some(a.notional));
    assert(s[4] == a.currency_kind.spec_byte());
    assert(RateCurrency::spec_decode(s[4]) == Some(a.currency_kind));
    assert(s[5] == a.delivery.spec_byte());
    assert(RateDelivery::spec_decode(s[5]) == Some(a.delivery));
    assert(Rate::spec_decode(s) == Ok::<Rate, Error>(a));
}

/// The encoding of a [`Swap::Commodity`] value re-decodes to itself.
proof fn lemma_decode_encode_commodity(a: Commodity)
    ensures
        Swap::Commodity(a).spec_bytes().len() == 6,
        Swap::Commodity(a).spec_bytes()[0] == 'S' as u8,
        Swap::spec_decode(Swap::Commodity(a).spec_bytes()) == Ok::<Swap, Error>(Swap::Commodity(a)),
{
    let s = Swap::Commodity(a).spec_bytes();
    assert(s.len() == 6);
    assert(s[1] == 'T' as u8);
    assert(s[2] == a.underlying.spec_byte());
    assert(CommodityUnderlying::spec_decode(s[2]) == Some(a.underlying));
    assert(s[3] == a.payout.spec_byte());
    assert(CommodityPayout::spec_decode(s[3]) == Some(a.payout));
    assert(s[4] == a.attr3.spec_byte());
    assert(NotApplicable::spec_decode(s[4]) == Some(a.attr3));
    assert(s[5] == a.delivery.spec_byte());
    assert(CommodityDelivery::spec_decode(s[5]) == Some(a.delivery));
    assert(Commodity::spec_decode(s) == Ok::<Commodity, Error>(a));
}

/// The encoding of a [`Swap::Equity`] value re-decodes to itself.
proof fn lemma_decode_encode_equity(a: Equity)
    ensures
        Swap::Equity(a).spec_bytes().len() == 6,
        Swap::Equity(a).spec_bytes()[0] == 'S' as u8,
        Swap::spec_decode(Swap::Equity(a).spec_bytes()) == Ok::<Swap, Error>(Swap::Equity(a)),
{
    let s = Swap::Equity(a).spec_bytes();
    assert(s.len() == 6);
    assert(s[1] == 'E' as u8);
    assert(s[2] == a.underlying.spec_byte());
    assert(EquityUnderlying::spec_decode(s[2]) == Some(a.underlying));
    assert(s[3] == a.payout.spec_byte());
    assert(EquityPayout::spec_decode(s[3]) == Some(a.payout));
    assert(s[4] == a.attr3.spec_byte());
    assert(NotApplicable::spec_decode(s[4]) == Some(a.attr3));
    assert(s[5] == a.delivery.spec_byte());
    assert(EquityDelivery::spec_decode(s[5]) == Some(a.delivery));
    assert(Equity::spec_decode(s) == Ok::<Equity, Error>(a));
}

/// The encoding of a [`Swap::Credit`] value re-decodes to itself.
proof fn lemma_decode_encode_credit(a: Credit)
    ensures
        Swap::Credit(a).spec_bytes().len() == 6,
        Swap::Credit(a).spec_bytes()[0] == 'S' as u8,
        Swap::spec_decode(Swap::Credit(a).spec_bytes()) == Ok::<Swap, Error>(Swap::Credit(a)),
{
    let s = Swap::Credit(a).spec_bytes();
    assert(s.len() == 6);
    assert(s[1] == 'C' as u8);
    assert(s[2] == a.underlying.spec_byte());
    assert(CreditUnderlying::spec_decode(s[2]) == Some(a.underlying));
    assert(s[3] == a.payout.spec_byte());
    assert(CreditPayout::spec_decode(s[3]) == Some(a.payout));
    assert(s[4] == a.issuer.spec_byte());
    assert(CreditIssuer::spec_decode(s[4]) == Some(a.issuer));
    assert(s[5] == a.delivery.spec_byte());
    assert(CreditDelivery::spec_decode(s[5]) == Some(a.delivery));
    assert(Credit::spec_decode(s) == Ok::<Credit, Error>(a));
}

/// The encoding of a [`Swap::Forex`] value re-decodes to itself.
proof fn lemma_decode_encode_forex(a: Forex)
    ensures
        Swap::Forex(a).spec_bytes().len() == 6,
        Swap::Forex(a).spec_bytes()[0] == 'S' as u8,
        Swap::spec_decode(Swap::Forex(a).spec_bytes()) == Ok::<Swap, Error>(Swap::Forex(a)),
{
    let s = Swap::Forex(a).spec_bytes();
    assert(s.len() == 6);
    assert(s[1] == 'F' as u8);
    assert(s[2] == a.underlying.spec_byte());
    assert(ForexUnderlying::spec_decode(s[2]) == Some(a.underlying));
    assert(s[3] == a.attr2.spec_byte());
    assert(NotApplicable::spec_decode(s[3]) == Some(a.attr2));
    assert(s[4] == a.attr3.spec_byte());
    assert(NotApplicable::spec_decode(s[4]) == Some(a.attr3));
    assert(s[5] == a.delivery.spec_byte());
    assert(ForexDelivery::spec_decode(s[5]) == Some(a.delivery));
    assert(Forex::spec_decode(s) == Ok::<Forex, Error>(a));
}

/// The encoding of a [`Swap::Other`] value re-decodes to itself.
proof fn lemma_decode_encode_other(a: Other)
    ensures
        Swap::Other(a).spec_bytes().len() == 6,
        Swap::Other(a).spec_bytes()[0] == 'S' as u8,
        Swap::spec_decode(Swap::Other(a).spec_bytes()) == Ok::<Swap, Error>(Swap::Other(a)),
{
    let s = Swap::Other(a).spec_bytes();
    assert(s.len() == 6);
    assert(s[1] == 'M' as u8);
    assert(s[2] == a.underlying.spec_byte());
    assert(OtherUnderlying::spec_decode(s[2]) == Some(a.underlying));
    assert(s[3] == a.attr2.spec_byte());
    assert(NotApplicable::spec_decode(s[3]) == Some(a.attr2));
    assert(s[4] == a.attr3.spec_byte());
    assert(NotApplicable::spec_decode(s[4]) == Some(a.attr3));
    assert(s[5] == a.delivery.spec_byte());
    assert(OtherDelivery::spec_decode(s[5]) == Some(a.delivery));
    assert(Other::spec_decode(s) == Ok::<Other, Error>(a));
}

/// Every swap group value re-decodes from its own encoding.
pub proof fn lemma_decode_encode(g: Swap)
    ensures
        g.spec_bytes().len() == 6,
        g.spec_bytes()[0] == 'S' as u8,
        Swap::spec_decode(g.spec_bytes()) == Ok::<Swap, Error>(g),
{
    match g {
        Swap::Rate(a) => lemma_decode_encode_rate(a),
        Swap::Commodity(a) => lemma_decode_encode_commodity(a),
        Swap::Equity(a) => lemma_decode_encode_equity(a),
        Swap::Credit(a) => lemma_decode_encode_credit(a),
        Swap::Forex(a) => lemma_decode_encode_forex(a),
        Swap::Other(a) => lemma_decode_encode_other(a),
    }
}

/// Every swap code that decodes successfully re-encodes to the same
/// six bytes.
#[verifier::rlimit(50)]
pub proof fn lemma_encode_decode(s: Seq<u8>, g: Swap)
    requires
        Swap::spec_decode(s) == Ok::<Swap, Error>(g),
        s[0] == 'S' as u8,
    ensures
        g.spec_bytes() == s,
{
    if s[1] == 'R' as u8 {
        assert(g.spec_bytes() =~= s);
    } else if s[1] == 'T' as u8 {
        assert(g.spec_bytes() =~= s);
    } else if s[1] == 'E' as u8 {
        assert(g.spec_bytes() =~= s);
    } else if s[1] == 'C' as u8 {
        assert(g.spec_bytes() =~= s);
    } else if s[1] == 'F' as u8 {
        assert(g.spec_bytes() =~= s);
    } else if s[1] == 'M' as u8 {
        assert(g.spec_bytes() =~= s);
    } else {
    }
}

/// Substituting `X` at any attribute position of a swap code that
/// decodes successfully leaves a code that still decodes successfully.
pub proof fn lemma_undefined_universality(s: Seq<u8>, i: int)
    requires
        Swap::spec_decode(s) is Ok,
        2 <= i < 6,
    ensures
        Swap::spec_decode(s.update(i, 'X' as u8)) is Ok,
{
    let t = s.update(i, 'X' as u8);
    assert(t.len() == s.len());
    assert(t[1] == s[1]);
    assert(t[i] == 'X' as u8);
    assert(forall|j: int| 0 <= j < 6 && j != i ==> t[j] == s[j]);
}

/// A six-byte swap code whose byte 1 is not a group tag is rejected
/// with exactly that byte, whatever the remaining bytes hold.
pub proof fn lemma_invalid_group(s: Seq<u8>)
    requires
        s.len() == 6,
        !Swap::spec_group_tag(s[1]),
    ensures
        Swap::spec_decode(s) == Err::<Swap, Error>(Error::InvalidGroup(s[1])),
{
}

/// When the group tag is legal and position `i` holds the first attribute
/// byte outside its alphabet, decoding reports exactly that position.
pub proof fn lemma_first_invalid_attribute(s: Seq<u8>, i: int)
    requires
        s.len() == 6,
        Swap::spec_group_tag(s[1]),
        2 <= i < 6,
        forall|j: int| 2 <= j < i ==> Swap::spec_attr_ok(s, j),
        !Swap::spec_attr_ok(s, i),
    ensures
        Swap::spec_decode(s) == Err::<Swap, Error>(Error::InvalidAttribute(i as usize, s[i])),
{
    if i > 2 {
        assert(Swap::spec_attr_ok(s, 2));
    }
    if i > 3 {
        assert(Swap::spec_attr_ok(s, 3));
    }
    if i > 4 {
        assert(Swap::spec_attr_ok(s, 4));
    }
}

/// A six-byte swap code decodes successfully exactly when its group
/// tag and all four attribute bytes are legal.
pub proof fn lemma_ok_iff(s: Seq<u8>)
    requires
        s.len() == 6,
    ensures
        Swap::spec_decode(s) is Ok <==> (Swap::spec_group_tag(s[1])
            && (forall|j: int| 2 <= j < 6 ==> Swap::spec_attr_ok(s, j))),
{
    if Swap::spec_group_tag(s[1]) && (forall|j: int| 2 <= j < 6 ==> Swap::spec_attr_ok(s, j)) {
        assert(Swap::spec_attr_ok(s, 2));
        assert(Swap::spec_attr_ok(s, 3));
        assert(Swap::spec_attr_ok(s, 4));
        assert(Swap::spec_attr_ok(s, 5));
    }
    if Swap::spec_decode(s) is Ok {
        assert forall|j: int| 2 <= j < 6 implies Swap::spec_attr_ok(s, j) by {
        }
    }
}

impl Attr for RateUnderlying {
    open spec fn spec_decode_byte(b: u8) -> Option<RateUnderlying> {
        RateUnderlying::spec_decode(b)
    }

    fn from_code_byte(value: u8) -> (r: Result<RateUnderlying, Error>) {
        RateUnderlying::from_byte(value, 0)
    }
}

impl AttrPos<2> for RateUnderlying {
}

impl Attr for Notional {
    open spec fn spec_decode_byte(b: u8) -> Option<Notional> {
        Notional::spec_decode(b)
    }

    fn from_code_byte(value: u8) -> (r: Result<Notional, Error>) {
        Notional::from_byte(value, 0)
    }
}

impl AttrPos<3> for Notional {
}

impl Attr for RateCurrency {
    open spec fn spec_decode_byte(b: u8) -> Option<RateCurrency> {
        RateCurrency::spec_decode(b)
    }

    fn from_code_byte(value: u8) -> (r: Result<RateCurrency, Error>) {
        RateCurrency::from_byte(value, 0)
    }
}

impl AttrPos<4> for RateCurrency {
}

impl Attr for RateDelivery {
    open spec fn spec_decode_byte(b: u8) -> Option<RateDelivery> {
        RateDelivery::spec_decode(b)
    }

    fn from_code_byte(value: u8) -> (r: Result<RateDelivery, Error>) {
        RateDelivery::from_byte(value, 0)
    }
}

impl AttrPos<5> for RateDelivery {
}

impl Attr for CommodityUnderlying {
    open spec fn spec_decode_byte(b: u8) -> Option<CommodityUnderlying> {
        CommodityUnderlying::spec_decode(b)
    }

    fn from_code_byte(value: u8) -> (r: Result<CommodityUnderlying, Error>) {
        CommodityUnderlying::from_byte(value, 0)
    }
}

impl AttrPos<2> for CommodityUnderlying {
}

impl Attr for CommodityPayout {
    open spec fn spec_decode_byte(b: u8) -> Option<CommodityPayout> {
        CommodityPayout::spec_decode(b)
    }

    fn from_code_byte(value: u8) -> (r: Result<CommodityPayout, Error>) {
        CommodityPayout::from_byte(value, 0)
    }
}

impl AttrPos<3> for CommodityPayout {
}

impl Attr for CommodityDelivery {
    open spec fn spec_decode_byte(b: u8) -> Option<CommodityDelivery> {
        CommodityDelivery::spec_decode(b)
    }

    fn from_code_byte(value: u8) -> (r: Result<CommodityDelivery, Error>) {
        CommodityDelivery::from_byte(value, 0)
    }
}

impl AttrPos<5> for CommodityDelivery {
}

impl Attr for EquityUnderlying {
    open spec fn spec_decode_byte(b: u8) -> Option<EquityUnderlying> {
        EquityUnderlying::spec_decode(b)
    }

    fn from_code_byte(value: u8) -> (r: Result<EquityUnderlying, Error>) {
        EquityUnderlying::from_byte(value, 0)
    }
}

impl AttrPos<2> for EquityUnderlying {
}

impl Attr for EquityPayout {
    open spec fn spec_decode_byte(b: u8) -> Option<EquityPayout> {
        EquityPayout::spec_decode(b)
    }

    fn from_code_byte(value: u8) -> (r: Result<EquityPayout, Error>) {
        EquityPayout::from_byte(value, 0)
    }
}

impl AttrPos<3> for EquityPayout {
}

impl Attr for EquityDelivery {
    open spec fn spec_decode_byte(b: u8) -> Option<EquityDelivery> {
        EquityDelivery::spec_decode(b)
    }

    fn from_code_byte(value: u8) -> (r: Result<EquityDelivery, Error>) {
        EquityDelivery::from_byte(value, 0)
    }
}

impl AttrPos<5> for EquityDelivery {
}

impl Attr for CreditUnderlying {
    open spec fn spec_decode_byte(b: u8) -> Option<CreditUnderlying> {
        CreditUnderlying::spec_decode(b)
    }

    fn from_code_byte(value: u8) -> (r: Result<CreditUnderlying, Error>) {
        CreditUnderlying::from_byte(value, 0)
    }
}

impl AttrPos<2> for CreditUnderlying {
}

impl Attr for CreditPayout {
    open spec fn spec_decode_byte(b: u8) -> Option<CreditPayout> {
        CreditPayout::spec_decode(b)
    }

    fn from_code_byte(value: u8) -> (r: Result<CreditPayout, Error>) {
        CreditPayout::from_byte(value, 0)
    }
}

impl AttrPos<3> for CreditPayout {
}

impl Attr for CreditIssuer {
    open spec fn spec_decode_byte(b: u8) -> Option<CreditIssuer> {
        CreditIssuer::spec_decode(b)
    }

    fn from_code_byte(value: u8) -> (r: Result<CreditIssuer, Error>) {
        CreditIssuer::from_byte(value, 0)
    }
}

impl AttrPos<4> for CreditIssuer {
}

impl Attr for CreditDelivery {
    open spec fn spec_decode_byte(b: u8) -> Option<CreditDelivery> {
        CreditDelivery::spec_decode(b)
    }

    fn from_code_byte(value: u8) -> (r: Result<CreditDelivery, Error>) {
        CreditDelivery::from_byte(value, 0)
    }
}

impl AttrPos<5> for CreditDelivery {
}

impl Attr for ForexUnderlying {
    open spec fn spec_decode_byte(b: u8) -> Option<ForexUnderlying> {
        ForexUnderlying::spec_decode(b)
    }

    fn from_code_byte(value: u8) -> (r: Result<ForexUnderlying, Error>) {
        ForexUnderlying::from_byte(value, 0)
    }
}

impl AttrPos<2> for ForexUnderlying {
}

impl Attr for ForexDelivery {
    open spec fn spec_decode_byte(b: u8) -> Option<ForexDelivery> {
        ForexDelivery::spec_decode(b)
    }

    fn from_code_byte(value: u8) -> (r: Result<ForexDelivery, Error>) {
        ForexDelivery::from_byte(value, 0)
    }
}

impl AttrPos<5> for ForexDelivery {
}

impl Attr for OtherUnderlying {
    open spec fn spec_decode_byte(b: u8) -> Option<OtherUnderlying> {
        OtherUnderlying::spec_decode(b)
    }

    fn from_code_byte(value: u8) -> (r: Result<OtherUnderlying, Error>) {
        OtherUnderlying::from_byte(value, 0)
    }
}

impl AttrPos<2> for OtherUnderlying {
}

impl Attr for OtherDelivery {
    open spec fn spec_decode_byte(b: u8) -> Option<OtherDelivery> {
        OtherDelivery::spec_decode(b)
    }

    fn from_code_byte(value: u8) -> (r: Result<OtherDelivery, Error>) {
        OtherDelivery::from_byte(value, 0)
    }
}

impl AttrPos<5> for OtherDelivery {
}

impl CfiGroup for Rate {
    type Attr1 = RateUnderlying;

    type Attr2 = Notional;

    type Attr3 = RateCurrency;

    type Attr4 = RateDelivery;

    open spec fn spec_attr1(self) -> RateUnderlying {
        self.underlying
    }

    open spec fn spec_attr2(self) -> Notional {
        self.notional
    }

    open spec fn spec_attr3(self) -> RateCurrency {
        self.currency_kind
    }

    open spec fn spec_attr4(self) -> RateDelivery {
        self.delivery
    }

    open spec fn spec_from_cfi(s: Seq<u8>) -> Result<Rate, Error> {
        Rate::spec_decode(s)
    }

    fn attr1(&self) -> (r: RateUnderlying) {
        self.underlying
    }

    fn attr2(&self) -> (r: Notional) {
        self.notional
    }

    fn attr3(&self) -> (r: RateCurrency) {
        self.currency_kind
    }

    fn attr4(&self) -> (r: RateDelivery) {
        self.delivery
    }

    fn from_cfi_bytes(value: &[u8]) -> (r: Result<Rate, Error>) {
        Rate::from_bytes(value)
    }
}

impl CfiGroup for Commodity {
    type Attr1 = CommodityUnderlying;

    type Attr2 = CommodityPayout;

    type Attr3 = NotApplicable;

    type Attr4 = CommodityDelivery;

    open spec fn spec_attr1(self) -> CommodityUnderlying {
        self.underlying
    }

    open spec fn spec_attr2(self) -> CommodityPayout {
        self.payout
    }

    open spec fn spec_attr3(self) -> NotApplicable {
        self.attr3
    }

    open spec fn spec_attr4(self) -> CommodityDelivery {
        self.delivery
    }

    open spec fn spec_from_cfi(s: Seq<u8>) -> Result<Commodity, Error> {
        Commodity::spec_decode(s)
    }

    fn attr1(&self) -> (r: CommodityUnderlying) {
        self.underlying
    }

    fn attr2(&self) -> (r: CommodityPayout) {
        self.payout
    }

    fn attr3(&self) -> (r: NotApplicable) {
        self.attr3
    }

    fn attr4(&self) -> (r: CommodityDelivery) {
        self.delivery
    }

    fn from_cfi_bytes(value: &[u8]) -> (r: Result<Commodity, Error>) {
        Commodity::from_bytes(value)
    }
}

impl CfiGroup for Equity {
    type Attr1 = EquityUnderlying;

    type Attr2 = EquityPayout;

    type Attr3 = NotApplicable;

    type Attr4 = EquityDelivery;

    open spec fn spec_attr1(self) -> EquityUnderlying {
        self.underlying
    }

    open spec fn spec_attr2(self) -> EquityPayout {
        self.payout
    }

    open spec fn spec_attr3(self) -> NotApplicable {
        self.attr3
    }

    open spec fn spec_attr4(self) -> EquityDelivery {
        self.delivery
    }

    open spec fn spec_from_cfi(s: Seq<u8>) -> Result<Equity, Error> {
        Equity::spec_decode(s)
    }

    fn attr1(&self) -> (r: EquityUnderlying) {
        self.underlying
    }

    fn attr2(&self) -> (r: EquityPayout) {
        self.payout
    }

    fn attr3(&self) -> (r: NotApplicable) {
        self.attr3
    }

    fn attr4(&self) -> (r: EquityDelivery) {
        self.delivery
    }

    fn from_cfi_bytes(value: &[u8]) -> (r: Result<Equity, Error>) {
        Equity::from_bytes(value)
    }
}

impl CfiGroup for Credit {
    type Attr1 = CreditUnderlying;

    type Attr2 = CreditPayout;

    type Attr3 = CreditIssuer;

    type Attr4 = CreditDelivery;

    open spec fn spec_attr1(self) -> CreditUnderlying {
        self.underlying
    }

    open spec fn spec_attr2(self) -> CreditPayout {
        self.payout
    }

    open spec fn spec_attr3(self) -> CreditIssuer {
        self.issuer
    }

    open spec fn spec_attr4(self) -> CreditDelivery {
        self.delivery
    }

    open spec fn spec_from_cfi(s: Seq<u8>) -> Result<Credit, Error> {
        Credit::spec_decode(s)
    }

    fn attr1(&self) -> (r: CreditUnderlying) {
        self.underlying
    }

    fn attr2(&self) -> (r: CreditPayout) {
        self.payout
    }

    fn attr3(&self) -> (r: CreditIssuer) {
        self.issuer
    }

    fn attr4(&self) -> (r: CreditDelivery) {
        self.delivery
    }

    fn from_cfi_bytes(value: &[u8]) -> (r: Result<Credit, Error>) {
        Credit::from_bytes(value)
    }
}

impl CfiGroup for Forex {
    type Attr1 = ForexUnderlying;

    type Attr2 = NotApplicable;

    type Attr3 = NotApplicable;

    type Attr4 = ForexDelivery;

    open spec fn spec_attr1(self) -> ForexUnderlying {
        self.underlying
    }

    open spec fn spec_attr2(self) -> NotApplicable {
        self.attr2
    }

    open spec fn spec_attr3(self) -> NotApplicable {
        self.attr3
    }

    open spec fn spec_attr4(self) -> ForexDelivery {
        self.delivery
    }

    open spec fn spec_from_cfi(s: Seq<u8>) -> Result<Forex, Error> {
        Forex::spec_decode(s)
    }

    fn attr1(&self) -> (r: ForexUnderlying) {
        self.underlying
    }

    fn attr2(&self) -> (r: NotApplicable) {
        self.attr2
    }

    fn attr3(&self) -> (r: NotApplicable) {
        self.attr3
    }

    fn attr4(&self) -> (r: ForexDelivery) {
        self.delivery
    }

    fn from_cfi_bytes(value: &[u8]) -> (r: Result<Forex, Error>) {
        Forex::from_bytes(value)
    }
}

impl CfiGroup for Other {
    type Attr1 = OtherUnderlying;

    type Attr2 = NotApplicable;

    type Attr3 = NotApplicable;

    type Attr4 = OtherDelivery;

    open spec fn spec_attr1(self) -> OtherUnderlying {
        self.underlying
    }

    open spec fn spec_attr2(self) -> NotApplicable {
        self.attr2
    }

    open spec fn spec_attr3(self) -> NotApplicable {
        self.attr3
    }

    open spec fn spec_attr4(self) -> OtherDelivery {
        self.delivery
    }

    open spec fn spec_from_cfi(s: Seq<u8>) -> Result<Other, Error> {
        Other::spec_decode(s)
    }

    fn attr1(&self) -> (r: OtherUnderlying) {
        self.underlying
    }

    fn attr2(&self) -> (r: NotApplicable) {
        self.attr2
    }

    fn attr3(&self) -> (r: NotApplicable) {
        self.attr3
    }

    fn attr4(&self) -> (r: OtherDelivery) {
        self.delivery
    }

    fn from_cfi_bytes(value: &[u8]) -> (r: Result<Other, Error>) {
        Other::from_bytes(value)
    }
}

} // verus!
