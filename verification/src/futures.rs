//! Futures category support.

use vstd::prelude::*;

use crate::Attr;
use crate::AttrPos;
use crate::CfiGroup;
use crate::Error;
use crate::NotApplicable;
use crate::Standardized;

verus! {

/// Futures.
#[derive(Clone, Copy, Debug, Eq, Hash, Ord, PartialEq, PartialOrd, Structural)]
pub enum Future {
    /// `F`: Financial futures.
    Financial(Financial),
    /// `C`: Commodities futures.
    Commodity(Commodity),
}

impl Future {
    /// Whether `b` is one of this category's group tags.
    pub open spec fn spec_group_tag(b: u8) -> bool {
        b == 'F' as u8
            || b == 'C' as u8
    }

    /// The full six-byte encoding of this group, category tag included.
    pub open spec fn spec_bytes(self) -> Seq<u8> {
        match self {
            Future::Financial(a) => seq!['F' as u8, 'F' as u8] + a.spec_bytes(),
            Future::Commodity(a) => seq!['F' as u8, 'C' as u8] + a.spec_bytes(),
        }
    }

    /// Whether byte `j` of `s` lies in the alphabet that this category's
    /// schema assigns to position `j`, for the group selected by byte 1.
    pub open spec fn spec_attr_ok(s: Seq<u8>, j: int) -> bool
        recommends
            s.len() == 6,
            2 <= j < 6,
    {
        if s[1] == 'F' as u8 {
            if j == 2 {
                UnderlyingFinancial::spec_decode(s[2]) is Some
            } else if j == 3 {
                Delivery::spec_decode(s[3]) is Some
            } else if j == 4 {
                Standardized::spec_decode(s[4]) is Some
            } else {
                NotApplicable::spec_decode(s[5]) is Some
            }
        } else if s[1] == 'C' as u8 {
            if j == 2 {
                UnderlyingCommodity::spec_decode(s[2]) is Some
            } else if j == 3 {
                Delivery::spec_decode(s[3]) is Some
            } else if j == 4 {
                Standardized::spec_decode(s[4]) is Some
            } else {
                NotApplicable::spec_decode(s[5]) is Some
            }
        } else {
            true
        }
    }

    /// The group encoded by the six-byte code `s`, selected by byte 1, or
    /// the error for the first invalid position at or after byte 1.
    pub open spec fn spec_decode(s: Seq<u8>) -> Result<Future, Error> {
        if s.len() != 6 {
            Err(Error::InvalidLength)
        } else if s[1] == 'F' as u8 {
            match Financial::spec_decode(s) {
                Ok(a) => Ok(Future::Financial(a)),
                Err(e) => Err(e),
            }
        } else if s[1] == 'C' as u8 {
            match Commodity::spec_decode(s) {
                Ok(a) => Ok(Future::Commodity(a)),
                Err(e) => Err(e),
            }
        } else {
            Err(Error::InvalidGroup(s[1]))
        }
    }

    /// Decode the group and attribute portion of a six-byte code of this
    /// category, failing on the first invalid position.
    pub fn from_bytes(src: &[u8]) -> (r: Result<Future, Error>)
        ensures
            r == Future::spec_decode(src@),
    {
        if src.len() != 6 {
            return Err(Error::InvalidLength);
        }
        if src[1] == 'F' as u8 {
            match Financial::from_bytes(src) {
                Ok(a) => Ok(Future::Financial(a)),
                Err(e) => Err(e),
            }
        } else if src[1] == 'C' as u8 {
            match Commodity::from_bytes(src) {
                Ok(a) => Ok(Future::Commodity(a)),
                Err(e) => Err(e),
            }
        } else {
            Err(Error::InvalidGroup(src[1]))
        }
    }

    /// The full six-byte encoding of this group, category tag included.
    pub fn to_bytes(&self) -> (r: [u8; 6])
        ensures
            r@ == self.spec_bytes(),
    {
        match self {
            Future::Financial(a) => {
                let t = a.to_bytes();
                let r = ['F' as u8, 'F' as u8, t[0], t[1], t[2], t[3]];
                proof {
                    assert(r@ =~= self.spec_bytes());
                }
                r
            },
            Future::Commodity(a) => {
                let t = a.to_bytes();
                let r = ['F' as u8, 'C' as u8, t[0], t[1], t[2], t[3]];
                proof {
                    assert(r@ =~= self.spec_bytes());
                }
                r
            },
        }
    }

    /// Whether the group value is [`Future::Financial`].
    pub fn is_financial(&self) -> (r: bool)
        ensures
            r == (self is Financial),
    {
        matches!(self, Future::Financial(_))
    }

    /// Whether the group value is [`Future::Commodity`].
    pub fn is_commodity(&self) -> (r: bool)
        ensures
            r == (self is Commodity),
    {
        matches!(self, Future::Commodity(_))
    }
}

/// Financial futures.
#[derive(Clone, Copy, Debug, Eq, Hash, Ord, PartialEq, PartialOrd, Structural)]
pub struct Financial {
    /// Underlying assets (indicates the type of underlying assets that the futures buyer
    /// receives, and that the seller delivers).
    pub underlying: UnderlyingFinancial,
    /// Delivery (indicates whether the settlement of the future is made in cash or whether the
    /// underlying instruments are delivered).
    pub delivery: Delivery,
    /// Standardized/non-standardized (indicates whether the terms of the contract are
    /// standardized or not).
    pub standardized: Standardized,
    /// Not applicable/undefined.
    pub unassigned4: NotApplicable,
}

impl Financial {
    /// The four attribute bytes, in position order.
    pub open spec fn spec_bytes(self) -> Seq<u8> {
        seq![
            self.underlying.spec_byte(),
            self.delivery.spec_byte(),
            self.standardized.spec_byte(),
            self.unassigned4.spec_byte(),
        ]
    }

    /// The value encoded in positions 2-5 of the six-byte code `s`, or
    /// the error for the first invalid position.
    pub open spec fn spec_decode(s: Seq<u8>) -> Result<Financial, Error> {
        if s.len() != 6 {
            Err(Error::InvalidLength)
        } else {
            match UnderlyingFinancial::spec_decode(s[2]) {
                None => Err(Error::InvalidAttribute(2, s[2])),
                Some(underlying) => match Delivery::spec_decode(s[3]) {
                    None => Err(Error::InvalidAttribute(3, s[3])),
                    Some(delivery) => match Standardized::spec_decode(s[4]) {
                        None => Err(Error::InvalidAttribute(4, s[4])),
                        Some(standardized) => match NotApplicable::spec_decode(s[5]) {
                            None => Err(Error::InvalidAttribute(5, s[5])),
                            Some(unassigned4) => Ok(Financial { underlying, delivery, standardized, unassigned4 }),
                        },
                    },
                },
            }
        }
    }

    /// Decode attribute positions 2-5 of a full six-byte code, failing
    /// on the first invalid position.
    pub fn from_bytes(src: &[u8]) -> (r: Result<Financial, Error>)
        ensures
            r == Financial::spec_decode(src@),
    {
        if src.len() != 6 {
            return Err(Error::InvalidLength);
        }
        let underlying = match UnderlyingFinancial::from_byte(src[2], 2) {
            Ok(a) => a,
            Err(e) => {
                return Err(e);
            },
        };
        let delivery = match Delivery::from_byte(src[3], 3) {
            Ok(a) => a,
            Err(e) => {
                return Err(e);
            },
        };
        let standardized = match Standardized::from_byte(src[4], 4) {
            Ok(a) => a,
            Err(e) => {
                return Err(e);
            },
        };
        let unassigned4 = match NotApplicable::from_byte(src[5], 5) {
            Ok(a) => a,
            Err(e) => {
                return Err(e);
            },
        };
        Ok(Financial { underlying, delivery, standardized, unassigned4 })
    }

    /// The four attribute bytes, in position order.
    pub fn to_bytes(&self) -> (r: [u8; 4])
        ensures
            r@ == self.spec_bytes(),
    {
        let r = [
            self.underlying.to_byte(),
            self.delivery.to_byte(),
            self.standardized.to_byte(),
            self.unassigned4.to_byte(),
        ];
        proof {
            assert(r@ =~= self.spec_bytes());
        }
        r
    }
}

/// Commodities futures.
#[derive(Clone, Copy, Debug, Eq, Hash, Ord, PartialEq, PartialOrd, Structural)]
pub struct Commodity {
    /// Underlying assets.
    pub underlying: UnderlyingCommodity,
    /// Delivery (indicates whether the settlement of the future is made in cash or whether the
    /// underlying instruments are delivered).
    pub delivery: Delivery,
    /// Standardized/non-standardized (indicates whether the terms of the contract are
    /// standardized or not).
    pub standardized: Standardized,
    /// Not applicable/undefined.
    pub unassigned4: NotApplicable,
}

impl Commodity {
    /// The four attribute bytes, in position order.
    pub open spec fn spec_bytes(self) -> Seq<u8> {
        seq![
            self.underlying.spec_byte(),
            self.delivery.spec_byte(),
            self.standardized.spec_byte(),
            self.unassigned4.spec_byte(),
        ]
    }

    /// The value encoded in positions 2-5 of the six-byte code `s`, or
    /// the error for the first invalid position.
    pub open spec fn spec_decode(s: Seq<u8>) -> Result<Commodity, Error> {
        if s.len() != 6 {
            Err(Error::InvalidLength)
        } else {
            match UnderlyingCommodity::spec_decode(s[2]) {
                None => Err(Error::InvalidAttribute(2, s[2])),
                Some(underlying) => match Delivery::spec_decode(s[3]) {
                    None => Err(Error::InvalidAttribute(3, s[3])),
                    Some(delivery) => match Standardized::spec_decode(s[4]) {
                        None => Err(Error::InvalidAttribute(4, s[4])),
                        Some(standardized) => match NotApplicable::spec_decode(s[5]) {
                            None => Err(Error::InvalidAttribute(5, s[5])),
                            Some(unassigned4) => Ok(Commodity { underlying, delivery, standardized, unassigned4 }),
                        },
                    },
                },
            }
        }
    }

    /// Decode attribute positions 2-5 of a full six-byte code, failing
    /// on the first invalid position.
    pub fn from_bytes(src: &[u8]) -> (r: Result<Commodity, Error>)
        ensures
            r == Commodity::spec_decode(src@),
    {
        if src.len() != 6 {
            return Err(Error::InvalidLength);
        }
        let underlying = match UnderlyingCommodity::from_byte(src[2], 2) {
            Ok(a) => a,
            Err(e) => {
                return Err(e);
            },
        };
        let delivery = match Delivery::from_byte(src[3], 3) {
            Ok(a) => a,
            Err(e) => {
                return Err(e);
            },
        };
        let standardized = match Standardized::from_byte(src[4], 4) {
            Ok(a) => a,
            Err(e) => {
                return Err(e);
            },
        };
        let unassigned4 = match NotApplicable::from_byte(src[5], 5) {
            Ok(a) => a,
            Err(e) => {
                return Err(e);
            },
        };
        Ok(Commodity { underlying, delivery, standardized, unassigned4 })
    }

    /// The four attribute bytes, in position order.
    pub fn to_bytes(&self) -> (r: [u8; 4])
        ensures
            r@ == self.spec_bytes(),
    {
        let r = [
            self.underlying.to_byte(),
            self.delivery.to_byte(),
            self.standardized.to_byte(),
            self.unassigned4.to_byte(),
        ];
        proof {
            assert(r@ =~= self.spec_bytes());
        }
        r
    }
}

/// Underlying assets.
#[derive(Clone, Copy, Debug, Eq, Hash, Ord, PartialEq, PartialOrd, Structural)]
pub enum UnderlyingFinancial {
    /// `B`: Baskets.
    Baskets,
    /// `S`: Stock-equities.
    Stock,
    /// `D`: Debt instruments.
    Debt,
    /// `C`: Currencies.
    Currency,
    /// `I`: Indices.
    Index,
    /// `O`: Options.
    Options,
    /// `F`: Futures.
    Future,
    /// `W`: Swaps.
    Swaps,
    /// `N`: Interest rates.
    InterestRate,
    /// `V`: Stock dividends.
    StockDividends,
    /// `M`: Others (miscellaneous).
    Other,
    /// `X`: Not applicable or undefined.
    Undefined,
}

impl UnderlyingFinancial {
    /// The code character assigned to this value.
    pub open spec fn spec_byte(self) -> u8 {
        match self {
            UnderlyingFinancial::Baskets => 'B' as u8,
            UnderlyingFinancial::Stock => 'S' as u8,
            UnderlyingFinancial::Debt => 'D' as u8,
            UnderlyingFinancial::Currency => 'C' as u8,
            UnderlyingFinancial::Index => 'I' as u8,
            UnderlyingFinancial::Options => 'O' as u8,
            UnderlyingFinancial::Future => 'F' as u8,
            UnderlyingFinancial::Swaps => 'W' as u8,
            UnderlyingFinancial::InterestRate => 'N' as u8,
            UnderlyingFinancial::StockDividends => 'V' as u8,
            UnderlyingFinancial::Other => 'M' as u8,
            UnderlyingFinancial::Undefined => 'X' as u8,
        }
    }

    /// The member encoded by `b`, if `b` lies in this attribute's alphabet.
    pub open spec fn spec_decode(b: u8) -> Option<UnderlyingFinancial> {
        if b == 'B' as u8 {
            Some(UnderlyingFinancial::Baskets)
        } else if b == 'S' as u8 {
            Some(UnderlyingFinancial::Stock)
        } else if b == 'D' as u8 {
            Some(UnderlyingFinancial::Debt)
        } else if b == 'C' as u8 {
            Some(UnderlyingFinancial::Currency)
        } else if b == 'I' as u8 {
            Some(UnderlyingFinancial::Index)
        } else if b == 'O' as u8 {
            Some(UnderlyingFinancial::Options)
        } else if b == 'F' as u8 {
            Some(UnderlyingFinancial::Future)
        } else if b == 'W' as u8 {
            Some(UnderlyingFinancial::Swaps)
        } else if b == 'N' as u8 {
            Some(UnderlyingFinancial::InterestRate)
        } else if b == 'V' as u8 {
            Some(UnderlyingFinancial::StockDividends)
        } else if b == 'M' as u8 {
            Some(UnderlyingFinancial::Other)
        } else if b == 'X' as u8 {
            Some(UnderlyingFinancial::Undefined)
        } else {
            None
        }
    }

    /// Decode the attribute byte found at position `pos` of a code.
    pub fn from_byte(b: u8, pos: usize) -> (r: Result<UnderlyingFinancial, Error>)
        ensures
            match UnderlyingFinancial::spec_decode(b) {
                Some(a) => r == Ok::<UnderlyingFinancial, Error>(a),
                None => r == Err::<UnderlyingFinancial, Error>(Error::InvalidAttribute(pos, b)),
            },
    {
        if b == 'B' as u8 {
            Ok(UnderlyingFinancial::Baskets)
        } else if b == 'S' as u8 {
            Ok(UnderlyingFinancial::Stock)
        } else if b == 'D' as u8 {
            Ok(UnderlyingFinancial::Debt)
        } else if b == 'C' as u8 {
            Ok(UnderlyingFinancial::Currency)
        } else if b == 'I' as u8 {
            Ok(UnderlyingFinancial::Index)
        } else if b == 'O' as u8 {
            Ok(UnderlyingFinancial::Options)
        } else if b == 'F' as u8 {
            Ok(UnderlyingFinancial::Future)
        } else if b == 'W' as u8 {
            Ok(UnderlyingFinancial::Swaps)
        } else if b == 'N' as u8 {
            Ok(UnderlyingFinancial::InterestRate)
        } else if b == 'V' as u8 {
            Ok(UnderlyingFinancial::StockDividends)
        } else if b == 'M' as u8 {
            Ok(UnderlyingFinancial::Other)
        } else if b == 'X' as u8 {
            Ok(UnderlyingFinancial::Undefined)
        } else {
            Err(Error::InvalidAttribute(pos, b))
        }
    }

    /// The byte this value encodes to; the inverse of decoding.
    pub fn to_byte(&self) -> (r: u8)
        ensures
            r == self.spec_byte(),
    {
        match self {
            UnderlyingFinancial::Baskets => 'B' as u8,
            UnderlyingFinancial::Stock => 'S' as u8,
            UnderlyingFinancial::Debt => 'D' as u8,
            UnderlyingFinancial::Currency => 'C' as u8,
            UnderlyingFinancial::Index => 'I' as u8,
            UnderlyingFinancial::Options => 'O' as u8,
            UnderlyingFinancial::Future => 'F' as u8,
            UnderlyingFinancial::Swaps => 'W' as u8,
            UnderlyingFinancial::InterestRate => 'N' as u8,
            UnderlyingFinancial::StockDividends => 'V' as u8,
            UnderlyingFinancial::Other => 'M' as u8,
            UnderlyingFinancial::Undefined => 'X' as u8,
        }
    }

    /// Check if this value is [`UnderlyingFinancial::Baskets`].
    pub fn is_baskets(&self) -> (r: bool)
        ensures
            r == (self is Baskets),
    {
        matches!(self, UnderlyingFinancial::Baskets)
    }

    /// Check if this value is [`UnderlyingFinancial::Stock`].
    pub fn is_stock(&self) -> (r: bool)
        ensures
            r == (self is Stock),
    {
        matches!(self, UnderlyingFinancial::Stock)
    }

    /// Check if this value is [`UnderlyingFinancial::Debt`].
    pub fn is_debt(&self) -> (r: bool)
        ensures
            r == (self is Debt),
    {
        matches!(self, UnderlyingFinancial::Debt)
    }

    /// Check if this value is [`UnderlyingFinancial::Currency`].
    pub fn is_currency(&self) -> (r: bool)
        ensures
            r == (self is Currency),
    {
        matches!(self, UnderlyingFinancial::Currency)
    }

    /// Check if this value is [`UnderlyingFinancial::Index`].
    pub fn is_index(&self) -> (r: bool)
        ensures
            r == (self is Index),
    {
        matches!(self, UnderlyingFinancial::Index)
    }

    /// Check if this value is [`UnderlyingFinancial::Options`].
    pub fn is_options(&self) -> (r: bool)
        ensures
            r == (self is Options),
    {
        matches!(self, UnderlyingFinancial::Options)
    }

    /// Check if this value is [`UnderlyingFinancial::Future`].
    pub fn is_future(&self) -> (r: bool)
        ensures
            r == (self is Future),
    {
        matches!(self, UnderlyingFinancial::Future)
    }

    /// Check if this value is [`UnderlyingFinancial::Swaps`].
    pub fn is_swaps(&self) -> (r: bool)
        ensures
            r == (self is Swaps),
    {
        matches!(self, UnderlyingFinancial::Swaps)
    }

    /// Check if this value is [`UnderlyingFinancial::InterestRate`].
    pub fn is_interest_rate(&self) -> (r: bool)
        ensures
            r == (self is InterestRate),
    {
        matches!(self, UnderlyingFinancial::InterestRate)
    }

    /// Check if this value is [`UnderlyingFinancial::StockDividends`].
    pub fn is_stock_dividends(&self) -> (r: bool)
        ensures
            r == (self is StockDividends),
    {
        matches!(self, UnderlyingFinancial::StockDividends)
    }

    /// Check if this value is [`UnderlyingFinancial::Other`].
    pub fn is_other(&self) -> (r: bool)
        ensures
            r == (self is Other),
    {
        matches!(self, UnderlyingFinancial::Other)
    }

    /// Check if this value is [`UnderlyingFinancial::Undefined`].
    pub fn is_undefined(&self) -> (r: bool)
        ensures
            r == (self is Undefined),
    {
        matches!(self, UnderlyingFinancial::Undefined)
    }
}

/// Delivery.
#[derive(Clone, Copy, Debug, Eq, Hash, Ord, PartialEq, PartialOrd, Structural)]
pub enum Delivery {
    /// `P`: Physical.
    Physical,
    /// `C`: Cash.
    Cash,
    /// `N`: Non-deliverable.
    NonDeliverable,
    /// `X`: Not applicable or undefined.
    Undefined,
}

impl Delivery {
    /// The code character assigned to this value.
    pub open spec fn spec_byte(self) -> u8 {
        match self {
            Delivery::Physical => 'P' as u8,
            Delivery::Cash => 'C' as u8,
            Delivery::NonDeliverable => 'N' as u8,
            Delivery::Undefined => 'X' as u8,
        }
    }

    /// The member encoded by `b`, if `b` lies in this attribute's alphabet.
    pub open spec fn spec_decode(b: u8) -> Option<Delivery> {
        if b == 'P' as u8 {
            Some(Delivery::Physical)
        } else if b == 'C' as u8 {
            Some(Delivery::Cash)
        } else if b == 'N' as u8 {
            Some(Delivery::NonDeliverable)
        } else if b == 'X' as u8 {
            Some(Delivery::Undefined)
        } else {
            None
        }
    }

    /// Decode the attribute byte found at position `pos` of a code.
    pub fn from_byte(b: u8, pos: usize) -> (r: Result<Delivery, Error>)
        ensures
            match Delivery::spec_decode(b) {
                Some(a) => r == Ok::<Delivery, Error>(a),
                None => r == Err::<Delivery, Error>(Error::InvalidAttribute(pos, b)),
            },
    {
        if b == 'P' as u8 {
            Ok(Delivery::Physical)
        } else if b == 'C' as u8 {
            Ok(Delivery::Cash)
        } else if b == 'N' as u8 {
            Ok(Delivery::NonDeliverable)
        } else if b == 'X' as u8 {
            Ok(Delivery::Undefined)
        } else {
            Err(Error::InvalidAttribute(pos, b))
        }
    }

    /// The byte this value encodes to; the inverse of decoding.
    pub fn to_byte(&self) -> (r: u8)
        ensures
            r == self.spec_byte(),
    {
        match self {
            Delivery::Physical => 'P' as u8,
            Delivery::Cash => 'C' as u8,
            Delivery::NonDeliverable => 'N' as u8,
            Delivery::Undefined => 'X' as u8,
        }
    }

    /// Check if this value is [`Delivery::Physical`].
    pub fn is_physical(&self) -> (r: bool)
        ensures
            r == (self is Physical),
    {
        matches!(self, Delivery::Physical)
    }

    /// Check if this value is [`Delivery::Cash`].
    pub fn is_cash(&self) -> (r: bool)
        ensures
            r == (self is Cash),
    {
        matches!(self, Delivery::Cash)
    }

    /// Check if this value is [`Delivery::NonDeliverable`].
    pub fn is_non_deliverable(&self) -> (r: bool)
        ensures
            r == (self is NonDeliverable),
    {
        matches!(self, Delivery::NonDeliverable)
    }

    /// Check if this value is [`Delivery::Undefined`].
    pub fn is_undefined(&self) -> (r: bool)
        ensures
            r == (self is Undefined),
    {
        matches!(self, Delivery::Undefined)
    }
}

/// Underlying assets.
#[derive(Clone, Copy, Debug, Eq, Hash, Ord, PartialEq, PartialOrd, Structural)]
pub enum UnderlyingCommodity {
    /// `E`: Extraction resources (metals, precious metals, coal, oil, gas).
    Extraction,
    /// `A`: Agriculture (commodities which include forestry, fishing, livestock, grain, dairy,
    /// corn, cocoa, soybeans, sugar, coffee).
    Agriculture,
    /// `I`: Industrial products (construction, manufacturing).
    Industrial,
    /// `S`: Services (transportation, communication, trade).
    Services,
    /// `N`: Environmental (includes carbon-related, emission reduction, weather).
    Environmental,
    /// `P`: Polypropylene products (includes plastics).
    Polypropylene,
    /// `H`: Generated resources (includes electricity, renewable energy, or any power/energy
    /// delivered through a utility network or provider).
    Generated,
    /// `M`: Others (miscellaneous).
    Other,
    /// `X`: Not applicable or undefined.
    Undefined,
}

impl UnderlyingCommodity {
    /// The code character assigned to this value.
    pub open spec fn spec_byte(self) -> u8 {
        match self {
            UnderlyingCommodity::Extraction => 'E' as u8,
            UnderlyingCommodity::Agriculture => 'A' as u8,
            UnderlyingCommodity::Industrial => 'I' as u8,
            UnderlyingCommodity::Services => 'S' as u8,
            UnderlyingCommodity::Environmental => 'N' as u8,
            UnderlyingCommodity::Polypropylene => 'P' as u8,
            UnderlyingCommodity::Generated => 'H' as u8,
            UnderlyingCommodity::Other => 'M' as u8,
            UnderlyingCommodity::Undefined => 'X' as u8,
        }
    }

    /// The member encoded by `b`, if `b` lies in this attribute's alphabet.
    pub open spec fn spec_decode(b: u8) -> Option<UnderlyingCommodity> {
        if b == 'E' as u8 {
            Some(UnderlyingCommodity::Extraction)
        } else if b == 'A' as u8 {
            Some(UnderlyingCommodity::Agriculture)
        } else if b == 'I' as u8 {
            Some(UnderlyingCommodity::Industrial)
        } else if b == 'S' as u8 {
            Some(UnderlyingCommodity::Services)
        } else if b == 'N' as u8 {
            Some(UnderlyingCommodity::Environmental)
        } else if b == 'P' as u8 {
            Some(UnderlyingCommodity::Polypropylene)
        } else if b == 'H' as u8 {
            Some(UnderlyingCommodity::Generated)
        } else if b == 'M' as u8 {
            Some(UnderlyingCommodity::Other)
        } else if b == 'X' as u8 {
            Some(UnderlyingCommodity::Undefined)
        } else {
            None
        }
    }

    /// Decode the attribute byte found at position `pos` of a code.
    pub fn from_byte(b: u8, pos: usize) -> (r: Result<UnderlyingCommodity, Error>)
        ensures
            match UnderlyingCommodity::spec_decode(b) {
                Some(a) => r == Ok::<UnderlyingCommodity, Error>(a),
                None => r == Err::<UnderlyingCommodity, Error>(Error::InvalidAttribute(pos, b)),
            },
    {
        if b == 'E' as u8 {
            Ok(UnderlyingCommodity::Extraction)
        } else if b == 'A' as u8 {
            Ok(UnderlyingCommodity::Agriculture)
        } else if b == 'I' as u8 {
            Ok(UnderlyingCommodity::Industrial)
        } else if b == 'S' as u8 {
            Ok(UnderlyingCommodity::Services)
        } else if b == 'N' as u8 {
            Ok(UnderlyingCommodity::Environmental)
        } else if b == 'P' as u8 {
            Ok(UnderlyingCommodity::Polypropylene)
        } else if b == 'H' as u8 {
            Ok(UnderlyingCommodity::Generated)
        } else if b == 'M' as u8 {
            Ok(UnderlyingCommodity::Other)
        } else if b == 'X' as u8 {
            Ok(UnderlyingCommodity::Undefined)
        } else {
            Err(Error::InvalidAttribute(pos, b))
        }
    }

    /// The byte this value encodes to; the inverse of decoding.
    pub fn to_byte(&self) -> (r: u8)
        ensures
            r == self.spec_byte(),
    {
        match self {
            UnderlyingCommodity::Extraction => 'E' as u8,
            UnderlyingCommodity::Agriculture => 'A' as u8,
            UnderlyingCommodity::Industrial => 'I' as u8,
            UnderlyingCommodity::Services => 'S' as u8,
            UnderlyingCommodity::Environmental => 'N' as u8,
            UnderlyingCommodity::Polypropylene => 'P' as u8,
            UnderlyingCommodity::Generated => 'H' as u8,
            UnderlyingCommodity::Other => 'M' as u8,
            UnderlyingCommodity::Undefined => 'X' as u8,
        }
    }

    /// Check if this value is [`UnderlyingCommodity::Extraction`].
    pub fn is_extraction(&self) -> (r: bool)
        ensures
            r == (self is Extraction),
    {
        matches!(self, UnderlyingCommodity::Extraction)
    }

    /// Check if this value is [`UnderlyingCommodity::Agriculture`].
    pub fn is_agriculture(&self) -> (r: bool)
        ensures
            r == (self is Agriculture),
    {
        matches!(self, UnderlyingCommodity::Agriculture)
    }

    /// Check if this value is [`UnderlyingCommodity::Industrial`].
    pub fn is_industrial(&self) -> (r: bool)
        ensures
            r == (self is Industrial),
    {
        matches!(self, UnderlyingCommodity::Industrial)
    }

    /// Check if this value is [`UnderlyingCommodity::Services`].
    pub fn is_services(&self) -> (r: bool)
        ensures
            r == (self is Services),
    {
        matches!(self, UnderlyingCommodity::Services)
    }

    /// Check if this value is [`UnderlyingCommodity::Environmental`].
    pub fn is_environmental(&self) -> (r: bool)
        ensures
            r == (self is Environmental),
    {
        matches!(self, UnderlyingCommodity::Environmental)
    }

    /// Check if this value is [`UnderlyingCommodity::Polypropylene`].
    pub fn is_polypropylene(&self) -> (r: bool)
        ensures
            r == (self is Polypropylene),
    {
        matches!(self, UnderlyingCommodity::Polypropylene)
    }

    /// Check if this value is [`UnderlyingCommodity::Generated`].
    pub fn is_generated(&self) -> (r: bool)
        ensures
            r == (self is Generated),
    {
        matches!(self, UnderlyingCommodity::Generated)
    }

    /// Check if this value is [`UnderlyingCommodity::Other`].
    pub fn is_other(&self) -> (r: bool)
        ensures
            r == (self is Other),
    {
        matches!(self, UnderlyingCommodity::Other)
    }

    /// Check if this value is [`UnderlyingCommodity::Undefined`].
    pub fn is_undefined(&self) -> (r: bool)
        ensures
            r == (self is Undefined),
    {
        matches!(self, UnderlyingCommodity::Undefined)
    }
}

/// The encoding of a [`Future::Financial`] value re-decodes to itself.
proof fn lemma_decode_encode_financial(a: Financial)
    ensures
        Future::Financial(a).spec_bytes().len() == 6,
        Future::Financial(a).spec_bytes()[0] == 'F' as u8,
        Future::spec_decode(Future::Financial(a).spec_bytes()) == Ok::<Future, Error>(Future::Financial(a)),
{
    let s = Future::Financial(a).spec_bytes();
    assert(s.len() == 6);
    assert(s[1] == 'F' as u8);
    assert(s[2] == a.underlying.spec_byte());
    assert(UnderlyingFinancial::spec_decode(s[2]) == Some(a.underlying));
    assert(s[3] == a.delivery.spec_byte());
    assert(Delivery::spec_decode(s[3]) == Some(a.delivery));
    assert(s[4] == a.standardized.spec_byte());
    assert(Standardized::spec_decode(s[4]) == Some(a.standardized));
    assert(s[5] == a.unassigned4.spec_byte());
    assert(NotApplicable::spec_decode(s[5]) == Some(a.unassigned4));
    assert(Financial::spec_decode(s) == Ok::<Financial, Error>(a));
}

/// The encoding of a [`Future::Commodity`] value re-decodes to itself.
proof fn lemma_decode_encode_commodity(a: Commodity)
    ensures
        Future::Commodity(a).spec_bytes().len() == 6,
        Future::Commodity(a).spec_bytes()[0] == 'F' as u8,
        Future::spec_decode(Future::Commodity(a).spec_bytes()) == Ok::<Future, Error>(Future::Commodity(a)),
{
    let s = Future::Commodity(a).spec_bytes();
    assert(s.len() == 6);
    assert(s[1] == 'C' as u8);
    assert(s[2] == a.underlying.spec_byte());
    assert(UnderlyingCommodity::spec_decode(s[2]) == Some(a.underlying));
    assert(s[3] == a.delivery.spec_byte());
    assert(Delivery::spec_decode(s[3]) == Some(a.delivery));
    assert(s[4] == a.standardized.spec_byte());
    assert(Standardized::spec_decode(s[4]) == Some(a.standardized));
    assert(s[5] == a.unassigned4.spec_byte());
    assert(NotApplicable::spec_decode(s[5]) == Some(a.unassigned4));
    assert(Commodity::spec_decode(s) == Ok::<Commodity, Error>(a));
}

/// Every futures group value re-decodes from its own encoding.
pub proof fn lemma_decode_encode(g: Future)
    ensures
        g.spec_bytes().len() == 6,
        g.spec_bytes()[0] == 'F' as u8,
        Future::spec_decode(g.spec_bytes()) == Ok::<Future, Error>(g),
{
    match g {
        Future::Financial(a) => lemma_decode_encode_financial(a),
        Future::Commodity(a) => lemma_decode_encode_commodity(a),
    }
}

/// Every futures code that decodes successfully re-encodes to the same
/// six bytes.
#[verifier::rlimit(50)]
pub proof fn lemma_encode_decode(s: Seq<u8>, g: Future)
    requires
        Future::spec_decode(s) == Ok::<Future, Error>(g),
        s[0] == 'F' as u8,
    ensures
        g.spec_bytes() == s,
{
    if s[1] == 'F' as u8 {
        assert(g.spec_bytes() =~= s);
    } else if s[1] == 'C' as u8 {
        assert(g.spec_bytes() =~= s);
    } else {
    }
}

/// Substituting `X` at any attribute position of a futures code that
/// decodes successfully leaves a code that still decodes successfully.
pub proof fn lemma_undefined_universality(s: Seq<u8>, i: int)
    requires
        Future::spec_decode(s) is Ok,
        2 <= i < 6,
    ensures
        Future::spec_decode(s.update(i, 'X' as u8)) is Ok,
{
    let t = s.update(i, 'X' as u8);
    assert(t.len() == s.len());
    assert(t[1] == s[1]);
    assert(t[i] == 'X' as u8);
    assert(forall|j: int| 0 <= j < 6 && j != i ==> t[j] == s[j]);
}

/// A six-byte futures code whose byte 1 is not a group tag is rejected
/// with exactly that byte, whatever the remaining bytes hold.
pub proof fn lemma_invalid_group(s: Seq<u8>)
    requires
        s.len() == 6,
        !Future::spec_group_tag(s[1]),
    ensures
        Future::spec_decode(s) == Err::<Future, Error>(Error::InvalidGroup(s[1])),
{
}

/// When the group tag is legal and position `i` holds the first attribute
/// byte outside its alphabet, decoding reports exactly that position.
pub proof fn lemma_first_invalid_attribute(s: Seq<u8>, i: int)
    requires
        s.len() == 6,
        Future::spec_group_tag(s[1]),
        2 <= i < 6,
        forall|j: int| 2 <= j < i ==> Future::spec_attr_ok(s, j),
        !Future::spec_attr_ok(s, i),
    ensures
        Future::spec_decode(s) == Err::<Future, Error>(Error::InvalidAttribute(i as usize, s[i])),
{
    if i > 2 {
        assert(Future::spec_attr_ok(s, 2));
    }
    if i > 3 {
        assert(Future::spec_attr_ok(s, 3));
    }
    if i > 4 {
        assert(Future::spec_attr_ok(s, 4));
    }
}

/// A six-byte futures code decodes successfully exactly when its group
/// tag and all four attribute bytes are legal.
pub proof fn lemma_ok_iff(s: Seq<u8>)
    requires
        s.len() == 6,
    ensures
        Future::spec_decode(s) is Ok <==> (Future::spec_group_tag(s[1])
            && (forall|j: int| 2 <= j < 6 ==> Future::spec_attr_ok(s, j))),
{
    if Future::spec_group_tag(s[1]) && (forall|j: int| 2 <= j < 6 ==> Future::spec_attr_ok(s, j)) {
        assert(Future::spec_attr_ok(s, 2));
        assert(Future::spec_attr_ok(s, 3));
        assert(Future::spec_attr_ok(s, 4));
        assert(Future::spec_attr_ok(s, 5));
    }
    if Future::spec_decode(s) is Ok {
        assert forall|j: int| 2 <= j < 6 implies Future::spec_attr_ok(s, j) by {
        }
    }
}

impl Attr for UnderlyingFinancial {
    open spec fn spec_decode_byte(b: u8) -> Option<UnderlyingFinancial> {
        UnderlyingFinancial::spec_decode(b)
    }

    fn from_code_byte(value: u8) -> (r: Result<UnderlyingFinancial, Error>) {
        UnderlyingFinancial::from_byte(value, 0)
    }
}

impl AttrPos<2> for UnderlyingFinancial {
}

impl Attr for Delivery {
    open spec fn spec_decode_byte(b: u8) -> Option<Delivery> {
        Delivery::spec_decode(b)
    }

    fn from_code_byte(value: u8) -> (r: Result<Delivery, Error>) {
        Delivery::from_byte(value, 0)
    }
}

impl AttrPos<3> for Delivery {
}

impl Attr for UnderlyingCommodity {
    open spec fn spec_decode_byte(b: u8) -> Option<UnderlyingCommodity> {
        UnderlyingCommodity::spec_decode(b)
    }

    fn from_code_byte(value: u8) -> (r: Result<UnderlyingCommodity, Error>) {
        UnderlyingCommodity::from_byte(value, 0)
    }
}

impl AttrPos<2> for UnderlyingCommodity {
}

impl CfiGroup for Financial {
    type Attr1 = UnderlyingFinancial;

    type Attr2 = Delivery;

    type Attr3 = Standardized;

    type Attr4 = NotApplicable;

    open spec fn spec_attr1(self) -> UnderlyingFinancial {
        self.underlying
    }

    open spec fn spec_attr2(self) -> Delivery {
        self.delivery
    }

    open spec fn spec_attr3(self) -> Standardized {
        self.standardized
    }

    open spec fn spec_attr4(self) -> NotApplicable {
        self.unassigned4
    }

    open spec fn spec_from_cfi(s: Seq<u8>) -> Result<Financial, Error> {
        Financial::spec_decode(s)
    }

    fn attr1(&self) -> (r: UnderlyingFinancial) {
        self.underlying
    }

    fn attr2(&self) -> (r: Delivery) {
        self.delivery
    }

    fn attr3(&self) -> (r: Standardized) {
        self.standardized
    }

    fn attr4(&self) -> (r: NotApplicable) {
        self.unassigned4
    }

    fn from_cfi_bytes(value: &[u8]) -> (r: Result<Financial, Error>) {
        Financial::from_bytes(value)
    }
}

impl CfiGroup for Commodity {
    type Attr1 = UnderlyingCommodity;

    type Attr2 = Delivery;

    type Attr3 = Standardized;

    type Attr4 = NotApplicable;

    open spec fn spec_attr1(self) -> UnderlyingCommodity {
        self.underlying
    }

    open spec fn spec_attr2(self) -> Delivery {
        self.delivery
    }

    open spec fn spec_attr3(self) -> Standardized {
        self.standardized
    }

    open spec fn spec_attr4(self) -> NotApplicable {
        self.unassigned4
    }

    open spec fn spec_from_cfi(s: Seq<u8>) -> Result<Commodity, Error> {
        Commodity::spec_decode(s)
    }

    fn attr1(&self) -> (r: UnderlyingCommodity) {
        self.underlying
    }

    fn attr2(&self) -> (r: Delivery) {
        self.delivery
    }

    fn attr3(&self) -> (r: Standardized) {
        self.standardized
    }

    fn attr4(&self) -> (r: NotApplicable) {
        self.unassigned4
    }

    fn from_cfi_bytes(value: &[u8]) -> (r: Result<Commodity, Error>) {
        Commodity::from_bytes(value)
    }
}

} // verus!
