//! Listed options category support.
//!
//! Only the listed-options category (`O`) carries a decoded group
//! structure. Non-listed and complex listed options (category `H`) are a
//! single-tag category at the root: no schema is bound to their bytes
//! 1-5, which are accepted without validation, so no group or attribute
//! types are defined for them here.

use vstd::prelude::*;

use crate::Attr;
use crate::AttrPos;
use crate::CfiGroup;
use crate::Error;
use crate::NotApplicable;
use crate::Standardized;

verus! {

/// Listed options.
#[derive(Clone, Copy, Debug, Eq, Hash, Ord, PartialEq, PartialOrd, Structural)]
pub enum Listed {
    /// `C`: Call options.
    Call(Call),
    /// `P`: Put options.
    Put(Put),
    /// `M`: Others (miscellaneous).
    Other(OtherListed),
}

impl Listed {
    /// Whether `b` is one of this category's group tags.
    pub open spec fn spec_group_tag(b: u8) -> bool {
        b == 'C' as u8
            || b == 'P' as u8
            || b == 'M' as u8
    }

    /// The full six-byte encoding of this group, category tag included.
    pub open spec fn spec_bytes(self) -> Seq<u8> {
        match self {
            Listed::Call(a) => seq!['O' as u8, 'C' as u8] + a.spec_bytes(),
            Listed::Put(a) => seq!['O' as u8, 'P' as u8] + a.spec_bytes(),
            Listed::Other(a) => seq!['O' as u8, 'M' as u8] + a.spec_bytes(),
        }
    }

    /// Whether byte `j` of `s` lies in the alphabet that this category's
    /// schema assigns to position `j`, for the group selected by byte 1.
    pub open spec fn spec_attr_ok(s: Seq<u8>, j: int) -> bool
        recommends
            s.len() == 6,
            2 <= j < 6,
    {
        if s[1] == 'C' as u8 {
            if j == 2 {
                ExerciseStyle::spec_decode(s[2]) is Some
            } else if j == 3 {
                Underlying::spec_decode(s[3]) is Some
            } else if j == 4 {
                Delivery::spec_decode(s[4]) is Some
            } else {
                Standardized::spec_decode(s[5]) is Some
            }
        } else if s[1] == 'P' as u8 {
            if j == 2 {
                ExerciseStyle::spec_decode(s[2]) is Some
            } else if j == 3 {
                Underlying::spec_decode(s[3]) is Some
            } else if j == 4 {
                Delivery::spec_decode(s[4]) is Some
            } else {
                Standardized::spec_decode(s[5]) is Some
            }
        } else if s[1] == 'M' as u8 {
            if j == 2 {
                NotApplicable::spec_decode(s[2]) is Some
            } else if j == 3 {
                NotApplicable::spec_decode(s[3]) is Some
            } else if j == 4 {
                NotApplicable::spec_decode(s[4]) is Some
            } else {
                NotApplicable::spec_decode(s[5]) is Some
            }
        } else {
            true
        }
    }

    /// The group encoded by the six-byte code `s`, selected by byte 1, or
    /// the error for the first invalid position at or after byte 1.
    pub open spec fn spec_decode(s: Seq<u8>) -> Result<Listed, Error> {
        if s.len() != 6 {
            Err(Error::InvalidLength)
        } else if s[1] == 'C' as u8 {
            match Call::spec_decode(s) {
                Ok(a) => Ok(Listed::Call(a)),
                Err(e) => Err(e),
            }
        } else if s[1] == 'P' as u8 {
            match Put::spec_decode(s) {
                Ok(a) => Ok(Listed::Put(a)),
                Err(e) => Err(e),
            }
        } else if s[1] == 'M' as u8 {
            match OtherListed::spec_decode(s) {
                Ok(a) => Ok(Listed::Other(a)),
                Err(e) => Err(e),
            }
        } else {
            Err(Error::InvalidGroup(s[1]))
        }
    }

    /// Decode the group and attribute portion of a six-byte code of this
    /// category, failing on the first invalid position.
    pub fn from_bytes(src: &[u8]) -> (r: Result<Listed, Error>)
        ensures
            r == Listed::spec_decode(src@),
    {
        if src.len() != 6 {
            return Err(Error::InvalidLength);
        }
        if src[1] == 'C' as u8 {
            match Call::from_bytes(src) {
                Ok(a) => Ok(Listed::Call(a)),
                Err(e) => Err(e),
            }
        } else if src[1] == 'P' as u8 {
            match Put::from_bytes(src) {
                Ok(a) => Ok(Listed::Put(a)),
                Err(e) => Err(e),
            }
        } else if src[1] == 'M' as u8 {
            match OtherListed::from_bytes(src) {
                Ok(a) => Ok(Listed::Other(a)),
                Err(e) => Err(e),
            }
        } else {
            Err(Error::InvalidGroup(src[1]))
        }
    }

    /// The full six-byte encoding of this group, category tag included.
    pub fn to_bytes(&self) -> (r: [u8; 6])
        ensures
            r@ == self.spec_bytes(),
    {
        match self {
            Listed::Call(a) => {
                let t = a.to_bytes();
                let r = ['O' as u8, 'C' as u8, t[0], t[1], t[2], t[3]];
                proof {
                    assert(r@ =~= self.spec_bytes());
                }
                r
            },
            Listed::Put(a) => {
                let t = a.to_bytes();
                let r = ['O' as u8, 'P' as u8, t[0], t[1], t[2], t[3]];
                proof {
                    assert(r@ =~= self.spec_bytes());
                }
                r
            },
            Listed::Other(a) => {
                let t = a.to_bytes();
                let r = ['O' as u8, 'M' as u8, t[0], t[1], t[2], t[3]];
                proof {
                    assert(r@ =~= self.spec_bytes());
                }
                r
            },
        }
    }

    /// Whether the group value is [`Listed::Call`].
    pub fn is_call(&self) -> (r: bool)
        ensures
            r == (self is Call),
    {
        matches!(self, Listed::Call(_))
    }

    /// Whether the group value is [`Listed::Put`].
    pub fn is_put(&self) -> (r: bool)
        ensures
            r == (self is Put),
    {
        matches!(self, Listed::Put(_))
    }

    /// Whether the group value is [`Listed::Other`].
    pub fn is_other(&self) -> (r: bool)
        ensures
            r == (self is Other),
    {
        matches!(self, Listed::Other(_))
    }
}

/// Call options.
#[derive(Clone, Copy, Debug, Eq, Hash, Ord, PartialEq, PartialOrd, Structural)]
pub struct Call {
    /// Exercise option style.
    pub exercise_style: ExerciseStyle,
    /// Underlying assets (indicates the type of underlying assets that the option holder is
    /// entitled to acquire).
    pub underlying: Underlying,
    /// Delivery (indicates whether the settlement of the option, when exercised, is made in
    /// cash or whether the underlying instruments are delivered).
    pub delivery: Delivery,
    /// Standardized/non-standardized (indicates whether the terms of the contract are
    /// standardized or not).
    pub standardized: Standardized,
}

impl Call {
    /// The four attribute bytes, in position order.
    pub open spec fn spec_bytes(self) -> Seq<u8> {
        seq![
            self.exercise_style.spec_byte(),
            self.underlying.spec_byte(),
            self.delivery.spec_byte(),
            self.standardized.spec_byte(),
        ]
    }

    /// The value encoded in positions 2-5 of the six-byte code `s`, or
    /// the error for the first invalid position.
    pub open spec fn spec_decode(s: Seq<u8>) -> Result<Call, Error> {
        if s.len() != 6 {
            Err(Error::InvalidLength)
        } else {
            match ExerciseStyle::spec_decode(s[2]) {
                None => Err(Error::InvalidAttribute(2, s[2])),
                Some(exercise_style) => match Underlying::spec_decode(s[3]) {
                    None => Err(Error::InvalidAttribute(3, s[3])),
                    Some(underlying) => match Delivery::spec_decode(s[4]) {
                        None => Err(Error::InvalidAttribute(4, s[4])),
                        Some(delivery) => match Standardized::spec_decode(s[5]) {
                            None => Err(Error::InvalidAttribute(5, s[5])),
                            Some(standardized) => Ok(Call { exercise_style, underlying, delivery, standardized }),
                        },
                    },
                },
            }
        }
    }

    /// Decode attribute positions 2-5 of a full six-byte code, failing
    /// on the first invalid position.
    pub fn from_bytes(src: &[u8]) -> (r: Result<Call, Error>)
        ensures
            r == Call::spec_decode(src@),
    {
        if src.len() != 6 {
            return Err(Error::InvalidLength);
        }
        let exercise_style = match ExerciseStyle::from_byte(src[2], 2) {
            Ok(a) => a,
            Err(e) => {
                return Err(e);
            },
        };
        let underlying = match Underlying::from_byte(src[3], 3) {
            Ok(a) => a,
            Err(e) => {
                return Err(e);
            },
        };
        let delivery = match Delivery::from_byte(src[4], 4) {
            Ok(a) => a,
            Err(e) => {
                return Err(e);
            },
        };
        let standardized = match Standardized::from_byte(src[5], 5) {
            Ok(a) => a,
            Err(e) => {
                return Err(e);
            },
        };
        Ok(Call { exercise_style, underlying, delivery, standardized })
    }

    /// The four attribute bytes, in position order.
    pub fn to_bytes(&self) -> (r: [u8; 4])
        ensures
            r@ == self.spec_bytes(),
    {
        let r = [
            self.exercise_style.to_byte(),
            self.underlying.to_byte(),
            self.delivery.to_byte(),
            self.standardized.to_byte(),
        ];
        proof {
            assert(r@ =~= self.spec_bytes());
        }
        r
    }
}

/// Put options.
#[derive(Clone, Copy, Debug, Eq, Hash, Ord, PartialEq, PartialOrd, Structural)]
pub struct Put {
    /// Exercise option style.
    pub exercise_style: ExerciseStyle,
    /// Underlying assets (indicates the type of underlying assets that the option holder is
    /// entitled to acquire).
    pub underlying: Underlying,
    /// Delivery (indicates whether the settlement of the option, when exercised, is made in
    /// cash or whether the underlying instruments are delivered).
    pub delivery: Delivery,
    /// Standardized/non-standardized (indicates whether the terms of the contract are
    /// standardized or not).
    pub standardized: Standardized,
}

impl Put {
    /// The four attribute bytes, in position order.
    pub open spec fn spec_bytes(self) -> Seq<u8> {
        seq![
            self.exercise_style.spec_byte(),
            self.underlying.spec_byte(),
            self.delivery.spec_byte(),
            self.standardized.spec_byte(),
        ]
    }

    /// The value encoded in positions 2-5 of the six-byte code `s`, or
    /// the error for the first invalid position.
    pub open spec fn spec_decode(s: Seq<u8>) -> Result<Put, Error> {
        if s.len() != 6 {
            Err(Error::InvalidLength)
        } else {
            match ExerciseStyle::spec_decode(s[2]) {
                None => Err(Error::InvalidAttribute(2, s[2])),
                Some(exercise_style) => match Underlying::spec_decode(s[3]) {
                    None => Err(Error::InvalidAttribute(3, s[3])),
                    Some(underlying) => match Delivery::spec_decode(s[4]) {
                        None => Err(Error::InvalidAttribute(4, s[4])),
                        Some(delivery) => match Standardized::spec_decode(s[5]) {
                            None => Err(Error::InvalidAttribute(5, s[5])),
                            Some(standardized) => Ok(Put { exercise_style, underlying, delivery, standardized }),
                        },
                    },
                },
            }
        }
    }

    /// Decode attribute positions 2-5 of a full six-byte code, failing
    /// on the first invalid position.
    pub fn from_bytes(src: &[u8]) -> (r: Result<Put, Error>)
        ensures
            r == Put::spec_decode(src@),
    {
        if src.len() != 6 {
            return Err(Error::InvalidLength);
        }
        let exercise_style = match ExerciseStyle::from_byte(src[2], 2) {
            Ok(a) => a,
            Err(e) => {
                return Err(e);
            },
        };
        let underlying = match Underlying::from_byte(src[3], 3) {
            Ok(a) => a,
            Err(e) => {
                return Err(e);
            },
        };
        let delivery = match Delivery::from_byte(src[4], 4) {
            Ok(a) => a,
            Err(e) => {
                return Err(e);
            },
        };
        let standardized = match Standardized::from_byte(src[5], 5) {
            Ok(a) => a,
            Err(e) => {
                return Err(e);
            },
        };
        Ok(Put { exercise_style, underlying, delivery, standardized })
    }

    /// The four attribute bytes, in position order.
    pub fn to_bytes(&self) -> (r: [u8; 4])
        ensures
            r@ == self.spec_bytes(),
    {
        let r = [
            self.exercise_style.to_byte(),
            self.underlying.to_byte(),
            self.delivery.to_byte(),
            self.standardized.to_byte(),
        ];
        proof {
            assert(r@ =~= self.spec_bytes());
        }
        r
    }
}

/// Others (miscellaneous).
#[derive(Clone, Copy, Debug, Eq, Hash, Ord, PartialEq, PartialOrd, Structural)]
pub struct OtherListed {
    /// Not applicable/undefined.
    pub undefined1: NotApplicable,
    /// Not applicable/undefined.
    pub undefined2: NotApplicable,
    /// Not applicable/undefined.
    pub undefined3: NotApplicable,
    /// Not applicable/undefined.
    pub undefined4: NotApplicable,
}

impl OtherListed {
    /// The four attribute bytes, in position order.
    pub open spec fn spec_bytes(self) -> Seq<u8> {
        seq![
            self.undefined1.spec_byte(),
            self.undefined2.spec_byte(),
            self.undefined3.spec_byte(),
            self.undefined4.spec_byte(),
        ]
    }

    /// The value encoded in positions 2-5 of the six-byte code `s`, or
    /// the error for the first invalid position.
    pub open spec fn spec_decode(s: Seq<u8>) -> Result<OtherListed, Error> {
        if s.len() != 6 {
            Err(Error::InvalidLength)
        } else {
            match NotApplicable::spec_decode(s[2]) {
                None => Err(Error::InvalidAttribute(2, s[2])),
                Some(undefined1) => match NotApplicable::spec_decode(s[3]) {
                    None => Err(Error::InvalidAttribute(3, s[3])),
                    Some(undefined2) => match NotApplicable::spec_decode(s[4]) {
                        None => Err(Error::InvalidAttribute(4, s[4])),
                        Some(undefined3) => match NotApplicable::spec_decode(s[5]) {
                            None => Err(Error::InvalidAttribute(5, s[5])),
                            Some(undefined4) => Ok(OtherListed { undefined1, undefined2, undefined3, undefined4 }),
                        },
                    },
                },
            }
        }
    }

    /// Decode attribute positions 2-5 of a full six-byte code, failing
    /// on the first invalid position.
    pub fn from_bytes(src: &[u8]) -> (r: Result<OtherListed, Error>)
        ensures
            r == OtherListed::spec_decode(src@),
    {
        if src.len() != 6 {
            return Err(Error::InvalidLength);
        }
        let undefined1 = match NotApplicable::from_byte(src[2], 2) {
            Ok(a) => a,
            Err(e) => {
                return Err(e);
            },
        };
        let undefined2 = match NotApplicable::from_byte(src[3], 3) {
            Ok(a) => a,
            Err(e) => {
                return Err(e);
            },
        };
        let undefined3 = match NotApplicable::from_byte(src[4], 4) {
            Ok(a) => a,
            Err(e) => {
                return Err(e);
            },
        };
        let undefined4 = match NotApplicable::from_byte(src[5], 5) {
            Ok(a) => a,
            Err(e) => {
                return Err(e);
            },
        };
        Ok(OtherListed { undefined1, undefined2, undefined3, undefined4 })
    }

    /// The four attribute bytes, in position order.
    pub fn to_bytes(&self) -> (r: [u8; 4])
        ensures
            r@ == self.spec_bytes(),
    {
        let r = [
            self.undefined1.to_byte(),
            self.undefined2.to_byte(),
            self.undefined3.to_byte(),
            self.undefined4.to_byte(),
        ];
        proof {
            assert(r@ =~= self.spec_bytes());
        }
        r
    }
}

/// Exercise option style.
#[derive(Clone, Copy, Debug, Eq, Hash, Ord, PartialEq, PartialOrd, Structural)]
pub enum ExerciseStyle {
    /// `E`: European.
    European,
    /// `A`: American.
    American,
    /// `B`: Bermudan.
    Bermudan,
    /// `X`: Not applicable or undefined.
    Undefined,
}

impl ExerciseStyle {
    /// The code character assigned to this value.
    pub open spec fn spec_byte(self) -> u8 {
        match self {
            ExerciseStyle::European => 'E' as u8,
            ExerciseStyle::American => 'A' as u8,
            ExerciseStyle::Bermudan => 'B' as u8,
            ExerciseStyle::Undefined => 'X' as u8,
        }
    }

    /// The member encoded by `b`, if `b` lies in this attribute's alphabet.
    pub open spec fn spec_decode(b: u8) -> Option<ExerciseStyle> {
        if b == 'E' as u8 {
            Some(ExerciseStyle::European)
        } else if b == 'A' as u8 {
            Some(ExerciseStyle::American)
        } else if b == 'B' as u8 {
            Some(ExerciseStyle::Bermudan)
        } else if b == 'X' as u8 {
            Some(ExerciseStyle::Undefined)
        } else {
            None
        }
    }

    /// Decode the attribute byte found at position `pos` of a code.
    pub fn from_byte(b: u8, pos: usize) -> (r: Result<ExerciseStyle, Error>)
        ensures
            match ExerciseStyle::spec_decode(b) {
                Some(a) => r == Ok::<ExerciseStyle, Error>(a),
                None => r == Err::<ExerciseStyle, Error>(Error::InvalidAttribute(pos, b)),
            },
    {
        if b == 'E' as u8 {
            Ok(ExerciseStyle::European)
        } else if b == 'A' as u8 {
            Ok(ExerciseStyle::American)
        } else if b == 'B' as u8 {
            Ok(ExerciseStyle::Bermudan)
        } else if b == 'X' as u8 {
            Ok(ExerciseStyle::Undefined)
        } else {
            Err(Error::InvalidAttribute(pos, b))
        }
    }

    /// The byte this value encodes to; the inverse of decoding.
    pub fn to_byte(&self) -> (r: u8)
        ensures
            r == self.spec_byte(),
    {
        match self {
            ExerciseStyle::European => 'E' as u8,
            ExerciseStyle::American => 'A' as u8,
            ExerciseStyle::Bermudan => 'B' as u8,
            ExerciseStyle::Undefined => 'X' as u8,
        }
    }

    /// Check if this value is [`ExerciseStyle::European`].
    pub fn is_european(&self) -> (r: bool)
        ensures
            r == (self is European),
    {
        matches!(self, ExerciseStyle::European)
    }

    /// Check if this value is [`ExerciseStyle::American`].
    pub fn is_american(&self) -> (r: bool)
        ensures
            r == (self is American),
    {
        matches!(self, ExerciseStyle::American)
    }

    /// Check if this value is [`ExerciseStyle::Bermudan`].
    pub fn is_bermudan(&self) -> (r: bool)
        ensures
            r == (self is Bermudan),
    {
        matches!(self, ExerciseStyle::Bermudan)
    }

    /// Check if this value is [`ExerciseStyle::Undefined`].
    pub fn is_undefined(&self) -> (r: bool)
        ensures
            r == (self is Undefined),
    {
        matches!(self, ExerciseStyle::Undefined)
    }
}

/// Underlying assets.
#[derive(Clone, Copy, Debug, Eq, Hash, Ord, PartialEq, PartialOrd, Structural)]
pub enum Underlying {
    /// `B`: Baskets.
    Basket,
    /// `S`: Stock-equities.
    Stock,
    /// `D`: Debt instruments.
    Debt,
    /// `T`: Commodities.
    Commodity,
    /// `C`: Currencies.
    Currency,
    /// `I`: Indices.
    Index,
    /// `O`: Options.
    Options,
    /// `F`: Futures.
    Future,
    /// `W`: Swaps.
    Swap,
    /// `N`: Interest rates.
    InterestRate,
    /// `M`: Others (miscellaneous).
    Other,
    /// `X`: Not applicable or undefined.
    Undefined,
}

impl Underlying {
    /// The code character assigned to this value.
    pub open spec fn spec_byte(self) -> u8 {
        match self {
            Underlying::Basket => 'B' as u8,
            Underlying::Stock => 'S' as u8,
            Underlying::Debt => 'D' as u8,
            Underlying::Commodity => 'T' as u8,
            Underlying::Currency => 'C' as u8,
            Underlying::Index => 'I' as u8,
            Underlying::Options => 'O' as u8,
            Underlying::Future => 'F' as u8,
            Underlying::Swap => 'W' as u8,
            Underlying::InterestRate => 'N' as u8,
            Underlying::Other => 'M' as u8,
            Underlying::Undefined => 'X' as u8,
        }
    }

    /// The member encoded by `b`, if `b` lies in this attribute's alphabet.
    pub open spec fn spec_decode(b: u8) -> Option<Underlying> {
        if b == 'B' as u8 {
            Some(Underlying::Basket)
        } else if b == 'S' as u8 {
            Some(Underlying::Stock)
        } else if b == 'D' as u8 {
            Some(Underlying::Debt)
        } else if b == 'T' as u8 {
            Some(Underlying::Commodity)
        } else if b == 'C' as u8 {
            Some(Underlying::Currency)
        } else if b == 'I' as u8 {
            Some(Underlying::Index)
        } else if b == 'O' as u8 {
            Some(Underlying::Options)
        } else if b == 'F' as u8 {
            Some(Underlying::Future)
        } else if b == 'W' as u8 {
            Some(Underlying::Swap)
        } else if b == 'N' as u8 {
            Some(Underlying::InterestRate)
        } else if b == 'M' as u8 {
            Some(Underlying::Other)
        } else if b == 'X' as u8 {
            Some(Underlying::Undefined)
        } else {
            None
        }
    }

    /// Decode the attribute byte found at position `pos` of a code.
    pub fn from_byte(b: u8, pos: usize) -> (r: Result<Underlying, Error>)
        ensures
            match Underlying::spec_decode(b) {
                Some(a) => r == Ok::<Underlying, Error>(a),
                None => r == Err::<Underlying, Error>(Error::InvalidAttribute(pos, b)),
            },
    {
        if b == 'B' as u8 {
            Ok(Underlying::Basket)
        } else if b == 'S' as u8 {
            Ok(Underlying::Stock)
        } else if b == 'D' as u8 {
            Ok(Underlying::Debt)
        } else if b == 'T' as u8 {
            Ok(Underlying::Commodity)
        } else if b == 'C' as u8 {
            Ok(Underlying::Currency)
        } else if b == 'I' as u8 {
            Ok(Underlying::Index)
        } else if b == 'O' as u8 {
            Ok(Underlying::Options)
        } else if b == 'F' as u8 {
            Ok(Underlying::Future)
        } else if b == 'W' as u8 {
            Ok(Underlying::Swap)
        } else if b == 'N' as u8 {
            Ok(Underlying::InterestRate)
        } else if b == 'M' as u8 {
            Ok(Underlying::Other)
        } else if b == 'X' as u8 {
            Ok(Underlying::Undefined)
        } else {
            Err(Error::InvalidAttribute(pos, b))
        }
    }

    /// The byte this value encodes to; the inverse of decoding.
    pub fn to_byte(&self) -> (r: u8)
        ensures
            r == self.spec_byte(),
    {
        match self {
            Underlying::Basket => 'B' as u8,
            Underlying::Stock => 'S' as u8,
            Underlying::Debt => 'D' as u8,
            Underlying::Commodity => 'T' as u8,
            Underlying::Currency => 'C' as u8,
            Underlying::Index => 'I' as u8,
            Underlying::Options => 'O' as u8,
            Underlying::Future => 'F' as u8,
            Underlying::Swap => 'W' as u8,
            Underlying::InterestRate => 'N' as u8,
            Underlying::Other => 'M' as u8,
            Underlying::Undefined => 'X' as u8,
        }
    }

    /// Check if this value is [`Underlying::Basket`].
    pub fn is_basket(&self) -> (r: bool)
        ensures
            r == (self is Basket),
    {
        matches!(self, Underlying::Basket)
    }

    /// Check if this value is [`Underlying::Stock`].
    pub fn is_stock(&self) -> (r: bool)
        ensures
            r == (self is Stock),
    {
        matches!(self, Underlying::Stock)
    }

    /// Check if this value is [`Underlying::Debt`].
    pub fn is_debt(&self) -> (r: bool)
        ensures
            r == (self is Debt),
    {
        matches!(self, Underlying::Debt)
    }

    /// Check if this value is [`Underlying::Commodity`].
    pub fn is_commodity(&self) -> (r: bool)
        ensures
            r == (self is Commodity),
    {
        matches!(self, Underlying::Commodity)
    }

    /// Check if this value is [`Underlying::Currency`].
    pub fn is_currency(&self) -> (r: bool)
        ensures
            r == (self is Currency),
    {
        matches!(self, Underlying::Currency)
    }

    /// Check if this value is [`Underlying::Index`].
    pub fn is_index(&self) -> (r: bool)
        ensures
            r == (self is Index),
    {
        matches!(self, Underlying::Index)
    }

    /// Check if this value is [`Underlying::Options`].
    pub fn is_options(&self) -> (r: bool)
        ensures
            r == (self is Options),
    {
        matches!(self, Underlying::Options)
    }

    /// Check if this value is [`Underlying::Future`].
    pub fn is_future(&self) -> (r: bool)
        ensures
            r == (self is Future),
    {
        matches!(self, Underlying::Future)
    }

    /// Check if this value is [`Underlying::Swap`].
    pub fn is_swap(&self) -> (r: bool)
        ensures
            r == (self is Swap),
    {
        matches!(self, Underlying::Swap)
    }

    /// Check if this value is [`Underlying::InterestRate`].
    pub fn is_interest_rate(&self) -> (r: bool)
        ensures
            r == (self is InterestRate),
    {
        matches!(self, Underlying::InterestRate)
    }

    /// Check if this value is [`Underlying::Other`].
    pub fn is_other(&self) -> (r: bool)
        ensures
            r == (self is Other),
    {
        matches!(self, Underlying::Other)
    }

    /// Check if this value is [`Underlying::Undefined`].
    pub fn is_undefined(&self) -> (r: bool)
        ensures
            r == (self is Undefined),
    {
        matches!(self, Underlying::Undefined)
    }
}

/// Delivery.
#[derive(Clone, Copy, Debug, Eq, Hash, Ord, PartialEq, PartialOrd, Structural)]
pub enum Delivery {
    /// `P`: Physical (the meeting of a settlement obligation under a derivative contract through
    /// the receipt or delivery of the actual underlying instrument(s) instead of through
    /// cash settlement).
    Physical,
    /// `C`: Cash (the discharge of an obligation by payment or receipt of a net cash amount instead
    /// of payment or delivery by both parties).
    Cash,
    /// `N`: Non-deliverable (synthetic options on foreign exchange forwards that are based on
    /// non-convertible or thinly traded currencies).
    NonDeliverable,
    /// `E`: Elect at exercise (the method of delivery of the underlying instrument when the option
    /// is exercised shall be determined at the time of exercise).
    ElectAtExercise,
    /// `X`: Not applicable or undefined.
    Undefined,
}

impl Delivery {
    /// The code character assigned to this value.
    pub open spec fn spec_byte(self) -> u8 {
        match self {
            Delivery::Physical => 'P' as u8,
            Delivery::Cash => 'C' as u8,
            Delivery::NonDeliverable => 'N' as u8,
            Delivery::ElectAtExercise => 'E' as u8,
            Delivery::Undefined => 'X' as u8,
        }
    }

    /// The member encoded by `b`, if `b` lies in this attribute's alphabet.
    pub open spec fn spec_decode(b: u8) -> Option<Delivery> {
        if b == 'P' as u8 {
            Some(Delivery::Physical)
        } else if b == 'C' as u8 {
            Some(Delivery::Cash)
        } else if b == 'N' as u8 {
            Some(Delivery::NonDeliverable)
        } else if b == 'E' as u8 {
            Some(Delivery::ElectAtExercise)
        } else if b == 'X' as u8 {
            Some(Delivery::Undefined)
        } else {
            None
        }
    }

    /// Decode the attribute byte found at position `pos` of a code.
    pub fn from_byte(b: u8, pos: usize) -> (r: Result<Delivery, Error>)
        ensures
            match Delivery::spec_decode(b) {
                Some(a) => r == Ok::<Delivery, Error>(a),
                None => r == Err::<Delivery, Error>(Error::InvalidAttribute(pos, b)),
            },
    {
        if b == 'P' as u8 {
            Ok(Delivery::Physical)
        } else if b == 'C' as u8 {
            Ok(Delivery::Cash)
        } else if b == 'N' as u8 {
            Ok(Delivery::NonDeliverable)
        } else if b == 'E' as u8 {
            Ok(Delivery::ElectAtExercise)
        } else if b == 'X' as u8 {
            Ok(Delivery::Undefined)
        } else {
            Err(Error::InvalidAttribute(pos, b))
        }
    }

    /// The byte this value encodes to; the inverse of decoding.
    pub fn to_byte(&self) -> (r: u8)
        ensures
            r == self.spec_byte(),
    {
        match self {
            Delivery::Physical => 'P' as u8,
            Delivery::Cash => 'C' as u8,
            Delivery::NonDeliverable => 'N' as u8,
            Delivery::ElectAtExercise => 'E' as u8,
            Delivery::Undefined => 'X' as u8,
        }
    }

    /// Check if this value is [`Delivery::Physical`].
    pub fn is_physical(&self) -> (r: bool)
        ensures
            r == (self is Physical),
    {
        matches!(self, Delivery::Physical)
    }

    /// Check if this value is [`Delivery::Cash`].
    pub fn is_cash(&self) -> (r: bool)
        ensures
            r == (self is Cash),
    {
        matches!(self, Delivery::Cash)
    }

    /// Check if this value is [`Delivery::NonDeliverable`].
    pub fn is_non_deliverable(&self) -> (r: bool)
        ensures
            r == (self is NonDeliverable),
    {
        matches!(self, Delivery::NonDeliverable)
    }

    /// Check if this value is [`Delivery::ElectAtExercise`].
    pub fn is_elect_at_exercise(&self) -> (r: bool)
        ensures
            r == (self is ElectAtExercise),
    {
        matches!(self, Delivery::ElectAtExercise)
    }

    /// Check if this value is [`Delivery::Undefined`].
    pub fn is_undefined(&self) -> (r: bool)
        ensures
            r == (self is Undefined),
    {
        matches!(self, Delivery::Undefined)
    }
}

/// The encoding of a [`Listed::Call`] value re-decodes to itself.
proof fn lemma_decode_encode_call(a: Call)
    ensures
        Listed::Call(a).spec_bytes().len() == 6,
        Listed::Call(a).spec_bytes()[0] == 'O' as u8,
        Listed::spec_decode(Listed::Call(a).spec_bytes()) == Ok::<Listed, Error>(Listed::Call(a)),
{
    let s = Listed::Call(a).spec_bytes();
    assert(s.len() == 6);
    assert(s[1] == 'C' as u8);
    assert(s[2] == a.exercise_style.spec_byte());
    assert(ExerciseStyle::spec_decode(s[2]) == Some(a.exercise_style));
    assert(s[3] == a.underlying.spec_byte());
    assert(Underlying::spec_decode(s[3]) == Some(a.underlying));
    assert(s[4] == a.delivery.spec_byte());
    assert(Delivery::spec_decode(s[4]) == Some(a.delivery));
    assert(s[5] == a.standardized.spec_byte());
    assert(Standardized::spec_decode(s[5]) == Some(a.standardized));
    assert(Call::spec_decode(s) == Ok::<Call, Error>(a));
}

/// The encoding of a [`Listed::Put`] value re-decodes to itself.
proof fn lemma_decode_encode_put(a: Put)
    ensures
        Listed::Put(a).spec_bytes().len() == 6,
        Listed::Put(a).spec_bytes()[0] == 'O' as u8,
        Listed::spec_decode(Listed::Put(a).spec_bytes()) == Ok::<Listed, Error>(Listed::Put(a)),
{
    let s = Listed::Put(a).spec_bytes();
    assert(s.len() == 6);
    assert(s[1] == 'P' as u8);
    assert(s[2] == a.exercise_style.spec_byte());
    assert(ExerciseStyle::spec_decode(s[2]) == Some(a.exercise_style));
    assert(s[3] == a.underlying.spec_byte());
    assert(Underlying::spec_decode(s[3]) == Some(a.underlying));
    assert(s[4] == a.delivery.spec_byte());
    assert(Delivery::spec_decode(s[4]) == Some(a.delivery));
    assert(s[5] == a.standardized.spec_byte());
    assert(Standardized::spec_decode(s[5]) == Some(a.standardized));
    assert(Put::spec_decode(s) == Ok::<Put, Error>(a));
}

/// The encoding of a [`Listed::Other`] value re-decodes to itself.
proof fn lemma_decode_encode_other(a: OtherListed)
    ensures
        Listed::Other(a).spec_bytes().len() == 6,
        Listed::Other(a).spec_bytes()[0] == 'O' as u8,
        Listed::spec_decode(Listed::Other(a).spec_bytes()) == Ok::<Listed, Error>(Listed::Other(a)),
{
    let s = Listed::Other(a).spec_bytes();
    assert(s.len() == 6);
    assert(s[1] == 'M' as u8);
    assert(s[2] == a.undefined1.spec_byte());
    assert(NotApplicable::spec_decode(s[2]) == Some(a.undefined1));
    assert(s[3] == a.undefined2.spec_byte());
    assert(NotApplicable::spec_decode(s[3]) == Some(a.undefined2));
    assert(s[4] == a.undefined3.spec_byte());
    assert(NotApplicable::spec_decode(s[4]) == Some(a.undefined3));
    assert(s[5] == a.undefined4.spec_byte());
    assert(NotApplicable::spec_decode(s[5]) == Some(a.undefined4));
    assert(OtherListed::spec_decode(s) == Ok::<OtherListed, Error>(a));
}

/// Every listed option group value re-decodes from its own encoding.
pub proof fn lemma_decode_encode(g: Listed)
    ensures
        g.spec_bytes().len() == 6,
        g.spec_bytes()[0] == 'O' as u8,
        Listed::spec_decode(g.spec_bytes()) == Ok::<Listed, Error>(g),
{
    match g {
        Listed::Call(a) => lemma_decode_encode_call(a),
        Listed::Put(a) => lemma_decode_encode_put(a),
        Listed::Other(a) => lemma_decode_encode_other(a),
    }
}

/// Every listed option code that decodes successfully re-encodes to the same
/// six bytes.
#[verifier::rlimit(50)]
pub proof fn lemma_encode_decode(s: Seq<u8>, g: Listed)
    requires
        Listed::spec_decode(s) == Ok::<Listed, Error>(g),
        s[0] == 'O' as u8,
    ensures
        g.spec_bytes() == s,
{
    if s[1] == 'C' as u8 {
        assert(g.spec_bytes() =~= s);
    } else if s[1] == 'P' as u8 {
        assert(g.spec_bytes() =~= s);
    } else if s[1] == 'M' as u8 {
        assert(g.spec_bytes() =~= s);
    } else {
    }
}

/// Substituting `X` at any attribute position of a listed option code that
/// decodes successfully leaves a code that still decodes successfully.
pub proof fn lemma_undefined_universality(s: Seq<u8>, i: int)
    requires
        Listed::spec_decode(s) is Ok,
        2 <= i < 6,
    ensures
        Listed::spec_decode(s.update(i, 'X' as u8)) is Ok,
{
    let t = s.update(i, 'X' as u8);
    assert(t.len() == s.len());
    assert(t[1] == s[1]);
    assert(t[i] == 'X' as u8);
    assert(forall|j: int| 0 <= j < 6 && j != i ==> t[j] == s[j]);
}

/// A six-byte listed option code whose byte 1 is not a group tag is rejected
/// with exactly that byte, whatever the remaining bytes hold.
pub proof fn lemma_invalid_group(s: Seq<u8>)
    requires
        s.len() == 6,
        !Listed::spec_group_tag(s[1]),
    ensures
        Listed::spec_decode(s) == Err::<Listed, Error>(Error::InvalidGroup(s[1])),
{
}

/// When the group tag is legal and position `i` holds the first attribute
/// byte outside its alphabet, decoding reports exactly that position.
pub proof fn lemma_first_invalid_attribute(s: Seq<u8>, i: int)
    requires
        s.len() == 6,
        Listed::spec_group_tag(s[1]),
        2 <= i < 6,
        forall|j: int| 2 <= j < i ==> Listed::spec_attr_ok(s, j),
        !Listed::spec_attr_ok(s, i),
    ensures
        Listed::spec_decode(s) == Err::<Listed, Error>(Error::InvalidAttribute(i as usize, s[i])),
{
    if i > 2 {
        assert(Listed::spec_attr_ok(s, 2));
    }
    if i > 3 {
        assert(Listed::spec_attr_ok(s, 3));
    }
    if i > 4 {
        assert(Listed::spec_attr_ok(s, 4));
    }
}

/// A six-byte listed option code decodes successfully exactly when its group
/// tag and all four attribute bytes are legal.
pub proof fn lemma_ok_iff(s: Seq<u8>)
    requires
        s.len() == 6,
    ensures
        Listed::spec_decode(s) is Ok <==> (Listed::spec_group_tag(s[1])
            && (forall|j: int| 2 <= j < 6 ==> Listed::spec_attr_ok(s, j))),
{
    if Listed::spec_group_tag(s[1]) && (forall|j: int| 2 <= j < 6 ==> Listed::spec_attr_ok(s, j)) {
        assert(Listed::spec_attr_ok(s, 2));
        assert(Listed::spec_attr_ok(s, 3));
        assert(Listed::spec_attr_ok(s, 4));
        assert(Listed::spec_attr_ok(s, 5));
    }
    if Listed::spec_decode(s) is Ok {
        assert forall|j: int| 2 <= j < 6 implies Listed::spec_attr_ok(s, j) by {
        }
    }
}

impl Attr for ExerciseStyle {
    open spec fn spec_decode_byte(b: u8) -> Option<ExerciseStyle> {
        ExerciseStyle::spec_decode(b)
    }

    fn from_code_byte(value: u8) -> (r: Result<ExerciseStyle, Error>) {
        ExerciseStyle::from_byte(value, 0)
    }
}

impl AttrPos<2> for ExerciseStyle {
}

impl Attr for Underlying {
    open spec fn spec_decode_byte(b: u8) -> Option<Underlying> {
        Underlying::spec_decode(b)
    }

    fn from_code_byte(value: u8) -> (r: Result<Underlying, Error>) {
        Underlying::from_byte(value, 0)
    }
}

impl AttrPos<3> for Underlying {
}

impl Attr for Delivery {
    open spec fn spec_decode_byte(b: u8) -> Option<Delivery> {
        Delivery::spec_decode(b)
    }

    fn from_code_byte(value: u8) -> (r: Result<Delivery, Error>) {
        Delivery::from_byte(value, 0)
    }
}

impl AttrPos<4> for Delivery {
}

impl CfiGroup for Call {
    type Attr1 = ExerciseStyle;

    type Attr2 = Underlying;

    type Attr3 = Delivery;

    type Attr4 = Standardized;

    open spec fn spec_attr1(self) -> ExerciseStyle {
        self.exercise_style
    }

    open spec fn spec_attr2(self) -> Underlying {
        self.underlying
    }

    open spec fn spec_attr3(self) -> Delivery {
        self.delivery
    }

    open spec fn spec_attr4(self) -> Standardized {
        self.standardized
    }

    open spec fn spec_from_cfi(s: Seq<u8>) -> Result<Call, Error> {
        Call::spec_decode(s)
    }

    fn attr1(&self) -> (r: ExerciseStyle) {
        self.exercise_style
    }

    fn attr2(&self) -> (r: Underlying) {
        self.underlying
    }

    fn attr3(&self) -> (r: Delivery) {
        self.delivery
    }

    fn attr4(&self) -> (r: Standardized) {
        self.standardized
    }

    fn from_cfi_bytes(value: &[u8]) -> (r: Result<Call, Error>) {
        Call::from_bytes(value)
    }
}

impl CfiGroup for Put {
    type Attr1 = ExerciseStyle;

    type Attr2 = Underlying;

    type Attr3 = Delivery;

    type Attr4 = Standardized;

    open spec fn spec_attr1(self) -> ExerciseStyle {
        self.exercise_style
    }

    open spec fn spec_attr2(self) -> Underlying {
        self.underlying
    }

    open spec fn spec_attr3(self) -> Delivery {
        self.delivery
    }

    open spec fn spec_attr4(self) -> Standardized {
        self.standardized
    }

    open spec fn spec_from_cfi(s: Seq<u8>) -> Result<Put, Error> {
        Put::spec_decode(s)
    }

    fn attr1(&self) -> (r: ExerciseStyle) {
        self.exercise_style
    }

    fn attr2(&self) -> (r: Underlying) {
        self.underlying
    }

    fn attr3(&self) -> (r: Delivery) {
        self.delivery
    }

    fn attr4(&self) -> (r: Standardized) {
        self.standardized
    }

    fn from_cfi_bytes(value: &[u8]) -> (r: Result<Put, Error>) {
        Put::from_bytes(value)
    }
}

impl CfiGroup for OtherListed {
    type Attr1 = NotApplicable;

    type Attr2 = NotApplicable;

    type Attr3 = NotApplicable;

    type Attr4 = NotApplicable;

    open spec fn spec_attr1(self) -> NotApplicable {
        self.undefined1
    }

    open spec fn spec_attr2(self) -> NotApplicable {
        self.undefined2
    }

    open spec fn spec_attr3(self) -> NotApplicable {
        self.undefined3
    }

    open spec fn spec_attr4(self) -> NotApplicable {
        self.undefined4
    }

    open spec fn spec_from_cfi(s: Seq<u8>) -> Result<OtherListed, Error> {
        OtherListed::spec_decode(s)
    }

    fn attr1(&self) -> (r: NotApplicable) {
        self.undefined1
    }

    fn attr2(&self) -> (r: NotApplicable) {
        self.undefined2
    }

    fn attr3(&self) -> (r: NotApplicable) {
        self.undefined3
    }

    fn attr4(&self) -> (r: NotApplicable) {
        self.undefined4
    }

    fn from_cfi_bytes(value: &[u8]) -> (r: Result<OtherListed, Error>) {
        OtherListed::from_bytes(value)
    }
}

} // verus!
