//! Entitlements (rights) category support.

use vstd::prelude::*;

use crate::Attr;
use crate::AttrPos;
use crate::CfiGroup;
use crate::Error;
use crate::Form;
use crate::NotApplicable;

verus! {

/// Entitlement (rights).
#[derive(Clone, Copy, Debug, Eq, Hash, Ord, PartialEq, PartialOrd, Structural)]
pub enum Right {
    /// `A`: Allotment (bonus) rights.
    Allotment(Allotment),
    /// `S`: Subscription rights.
    Subscription(Subscription),
    /// `P`: Purchase rights.
    Purchase(Purchase),
    /// `W`: Warrants.
    Warrant(Warrant),
    /// `F`: Mini-future certificates, constant leverage certificates.
    MiniFuture(MiniFuture),
    /// `D`: Depositary receipts on entitlements.
    DepositoryReceipt(DepositoryReceipt),
    /// `M`: Others (miscellaneous).
    Other(Other),
}

impl Right {
    /// Whether `b` is one of this category's group tags.
    pub open spec fn spec_group_tag(b: u8) -> bool {
        b == 'A' as u8
            || b == 'S' as u8
            || b == 'P' as u8
            || b == 'W' as u8
            || b == 'F' as u8
            || b == 'D' as u8
            || b == 'M' as u8
    }

    /// The full six-byte encoding of this group, category tag included.
    pub open spec fn spec_bytes(self) -> Seq<u8> {
        match self {
            Right::Allotment(a) => seq!['R' as u8, 'A' as u8] + a.spec_bytes(),
            Right::Subscription(a) => seq!['R' as u8, 'S' as u8] + a.spec_bytes(),
            Right::Purchase(a) => seq!['R' as u8, 'P' as u8] + a.spec_bytes(),
            Right::Warrant(a) => seq!['R' as u8, 'W' as u8] + a.spec_bytes(),
            Right::MiniFuture(a) => seq!['R' as u8, 'F' as u8] + a.spec_bytes(),
            Right::DepositoryReceipt(a) => seq!['R' as u8, 'D' as u8] + a.spec_bytes(),
            Right::Other(a) => seq!['R' as u8, 'M' as u8] + a.spec_bytes(),
        }
    }

    /// Whether byte `j` of `s` lies in the alphabet that this category's
    /// schema assigns to position `j`, for the group selected by byte 1.
    pub open spec fn spec_attr_ok(s: Seq<u8>, j: int) -> bool
        recommends
            s.len() == 6,
            2 <= j < 6,
    {
        if s[1] == 'A' as u8 {
            if j == 2 {
                NotApplicable::spec_decode(s[2]) is Some
            } else if j == 3 {
                NotApplicable::spec_decode(s[3]) is Some
            } else if j == 4 {
                NotApplicable::spec_decode(s[4]) is Some
            } else {
                Form::spec_decode(s[5]) is Some
            }
        } else if s[1] == 'S' as u8 {
            if j == 2 {
                Assets::spec_decode(s[2]) is Some
            } else if j == 3 {
                NotApplicable::spec_decode(s[3]) is Some
            } else if j == 4 {
                NotApplicable::spec_decode(s[4]) is Some
            } else {
                Form::spec_decode(s[5]) is Some
            }
        } else if s[1] == 'P' as u8 {
            if j == 2 {
                Assets::spec_decode(s[2]) is Some
            } else if j == 3 {
                NotApplicable::spec_decode(s[3]) is Some
            } else if j == 4 {
                NotApplicable::spec_decode(s[4]) is Some
            } else {
                Form::spec_decode(s[5]) is Some
            }
        } else if s[1] == 'W' as u8 {
            if j == 2 {
                Assets::spec_decode(s[2]) is Some
            } else if j == 3 {
                Kind::spec_decode(s[3]) is Some
            } else if j == 4 {
                CallPut::spec_decode(s[4]) is Some
            } else {
                ExerciseStyle::spec_decode(s[5]) is Some
            }
        } else if s[1] == 'F' as u8 {
            if j == 2 {
                FutureAsset::spec_decode(s[2]) is Some
            } else if j == 3 {
                Barrier::spec_decode(s[3]) is Some
            } else if j == 4 {
                LongShort::spec_decode(s[4]) is Some
            } else {
                ExerciseStyle::spec_decode(s[5]) is Some
            }
        } else if s[1] == 'D' as u8 {
            if j == 2 {
                Dependency::spec_decode(s[2]) is Some
            } else if j == 3 {
                NotApplicable::spec_decode(s[3]) is Some
            } else if j == 4 {
                NotApplicable::spec_decode(s[4]) is Some
            } else {
                Form::spec_decode(s[5]) is Some
            }
        } else if s[1] == 'M' as u8 {
            if j == 2 {
                NotApplicable::spec_decode(s[2]) is Some
            } else if j == 3 {
                NotApplicable::spec_decode(s[3]) is Some
            } else if j == 4 {
                NotApplicable::spec_decode(s[4]) is Some
            } else {
                NotApplicable::spec_decode(s[5]) is Some
            }
        } else {
            true
        }
    }

    /// The group encoded by the six-byte code `s`, selected by byte 1, or
    /// the error for the first invalid position at or after byte 1.
    pub open spec fn spec_decode(s: Seq<u8>) -> Result<Right, Error> {
        if s.len() != 6 {
            Err(Error::InvalidLength)
        } else if s[1] == 'A' as u8 {
            match Allotment::spec_decode(s) {
                Ok(a) => Ok(Right::Allotment(a)),
                Err(e) => Err(e),
            }
        } else if s[1] == 'S' as u8 {
            match Subscription::spec_decode(s) {
                Ok(a) => Ok(Right::Subscription(a)),
                Err(e) => Err(e),
            }
        } else if s[1] == 'P' as u8 {
            match Purchase::spec_decode(s) {
                Ok(a) => Ok(Right::Purchase(a)),
                Err(e) => Err(e),
            }
        } else if s[1] == 'W' as u8 {
            match Warrant::spec_decode(s) {
                Ok(a) => Ok(Right::Warrant(a)),
                Err(e) => Err(e),
            }
        } else if s[1] == 'F' as u8 {
            match MiniFuture::spec_decode(s) {
                Ok(a) => Ok(Right::MiniFuture(a)),
                Err(e) => Err(e),
            }
        } else if s[1] == 'D' as u8 {
            match DepositoryReceipt::spec_decode(s) {
                Ok(a) => Ok(Right::DepositoryReceipt(a)),
                Err(e) => Err(e),
            }
        } else if s[1] == 'M' as u8 {
            match Other::spec_decode(s) {
                Ok(a) => Ok(Right::Other(a)),
                Err(e) => Err(e),
            }
        } else {
            Err(Error::InvalidGroup(s[1]))
        }
    }

    /// Decode the group and attribute portion of a six-byte code of this
    /// category, failing on the first invalid position.
    pub fn from_bytes(src: &[u8]) -> (r: Result<Right, Error>)
        ensures
            r == Right::spec_decode(src@),
    {
        if src.len() != 6 {
            return Err(Error::InvalidLength);
        }
        if src[1] == 'A' as u8 {
            match Allotment::from_bytes(src) {
                Ok(a) => Ok(Right::Allotment(a)),
                Err(e) => Err(e),
            }
        } else if src[1] == 'S' as u8 {
            match Subscription::from_bytes(src) {
                Ok(a) => Ok(Right::Subscription(a)),
                Err(e) => Err(e),
            }
        } else if src[1] == 'P' as u8 {
            match Purchase::from_bytes(src) {
                Ok(a) => Ok(Right::Purchase(a)),
                Err(e) => Err(e),
            }
        } else if src[1] == 'W' as u8 {
            match Warrant::from_bytes(src) {
                Ok(a) => Ok(Right::Warrant(a)),
                Err(e) => Err(e),
            }
        } else if src[1] == 'F' as u8 {
            match MiniFuture::from_bytes(src) {
                Ok(a) => Ok(Right::MiniFuture(a)),
                Err(e) => Err(e),
            }
        } else if src[1] == 'D' as u8 {
            match DepositoryReceipt::from_bytes(src) {
                Ok(a) => Ok(Right::DepositoryReceipt(a)),
                Err(e) => Err(e),
            }
        } else if src[1] == 'M' as u8 {
            match Other::from_bytes(src) {
                Ok(a) => Ok(Right::Other(a)),
                Err(e) => Err(e),
            }
        } else {
            Err(Error::InvalidGroup(src[1]))
        }
    }

    /// The full six-byte encoding of this group, category tag included.
    pub fn to_bytes(&self) -> (r: [u8; 6])
        ensures
            r@ == self.spec_bytes(),
    {
        match self {
            Right::Allotment(a) => {
                let t = a.to_bytes();
                let r = ['R' as u8, 'A' as u8, t[0], t[1], t[2], t[3]];
                proof {
                    assert(r@ =~= self.spec_bytes());
                }
                r
            },
            Right::Subscription(a) => {
                let t = a.to_bytes();
                let r = ['R' as u8, 'S' as u8, t[0], t[1], t[2], t[3]];
                proof {
                    assert(r@ =~= self.spec_bytes());
                }
                r
            },
            Right::Purchase(a) => {
                let t = a.to_bytes();
                let r = ['R' as u8, 'P' as u8, t[0], t[1], t[2], t[3]];
                proof {
                    assert(r@ =~= self.spec_bytes());
                }
                r
            },
            Right::Warrant(a) => {
                let t = a.to_bytes();
                let r = ['R' as u8, 'W' as u8, t[0], t[1], t[2], t[3]];
                proof {
                    assert(r@ =~= self.spec_bytes());
                }
                r
            },
            Right::MiniFuture(a) => {
                let t = a.to_bytes();
                let r = ['R' as u8, 'F' as u8, t[0], t[1], t[2], t[3]];
                proof {
                    assert(r@ =~= self.spec_bytes());
                }
                r
            },
            Right::DepositoryReceipt(a) => {
                let t = a.to_bytes();
                let r = ['R' as u8, 'D' as u8, t[0], t[1], t[2], t[3]];
                proof {
                    assert(r@ =~= self.spec_bytes());
                }
                r
            },
            Right::Other(a) => {
                let t = a.to_bytes();
                let r = ['R' as u8, 'M' as u8, t[0], t[1], t[2], t[3]];
                proof {
                    assert(r@ =~= self.spec_bytes());
                }
                r
            },
        }
    }

    /// Whether the group value is [`Right::Allotment`].
    pub fn is_allotment(&self) -> (r: bool)
        ensures
            r == (self is Allotment),
    {
        matches!(self, Right::Allotment(_))
    }

    /// Whether the group value is [`Right::Subscription`].
    pub fn is_subscription(&self) -> (r: bool)
        ensures
            r == (self is Subscription),
    {
        matches!(self, Right::Subscription(_))
    }

    /// Whether the group value is [`Right::Purchase`].
    pub fn is_purchase(&self) -> (r: bool)
        ensures
            r == (self is Purchase),
    {
        matches!(self, Right::Purchase(_))
    }

    /// Whether the group value is [`Right::Warrant`].
    pub fn is_warrant(&self) -> (r: bool)
        ensures
            r == (self is Warrant),
    {
        matches!(self, Right::Warrant(_))
    }

    /// Whether the group value is [`Right::MiniFuture`].
    pub fn is_mini_future(&self) -> (r: bool)
        ensures
            r == (self is MiniFuture),
    {
        matches!(self, Right::MiniFuture(_))
    }

    /// Whether the group value is [`Right::DepositoryReceipt`].
    pub fn is_depository_receipt(&self) -> (r: bool)
        ensures
            r == (self is DepositoryReceipt),
    {
        matches!(self, Right::DepositoryReceipt(_))
    }

    /// Whether the group value is [`Right::Other`].
    pub fn is_other(&self) -> (r: bool)
        ensures
            r == (self is Other),
    {
        matches!(self, Right::Other(_))
    }
}

/// Allotment (bonus) rights.
#[derive(Clone, Copy, Debug, Eq, Hash, Ord, PartialEq, PartialOrd, Structural)]
pub struct Allotment {
    /// Not applicable/undefined.
    pub unassigned1: NotApplicable,
    /// Not applicable/undefined.
    pub unassigned2: NotApplicable,
    /// Not applicable/undefined.
    pub unassigned3: NotApplicable,
    /// Form (negotiability, transmission).
    pub form: Form,
}

impl Allotment {
    /// The four attribute bytes, in position order.
    pub open spec fn spec_bytes(self) -> Seq<u8> {
        seq![
            self.unassigned1.spec_byte(),
            self.unassigned2.spec_byte(),
            self.unassigned3.spec_byte(),
            self.form.spec_byte(),
        ]
    }

    /// The value encoded in positions 2-5 of the six-byte code `s`, or
    /// the error for the first invalid position.
    pub open spec fn spec_decode(s: Seq<u8>) -> Result<Allotment, Error> {
        if s.len() != 6 {
            Err(Error::InvalidLength)
        } else {
            match NotApplicable::spec_decode(s[2]) {
                None => Err(Error::InvalidAttribute(2, s[2])),
                Some(unassigned1) => match NotApplicable::spec_decode(s[3]) {
                    None => Err(Error::InvalidAttribute(3, s[3])),
                    Some(unassigned2) => match NotApplicable::spec_decode(s[4]) {
                        None => Err(Error::InvalidAttribute(4, s[4])),
                        Some(unassigned3) => match Form::spec_decode(s[5]) {
                            None => Err(Error::InvalidAttribute(5, s[5])),
                            Some(form) => Ok(Allotment { unassigned1, unassigned2, unassigned3, form }),
                        },
                    },
                },
            }
        }
    }

    /// Decode attribute positions 2-5 of a full six-byte code, failing
    /// on the first invalid position.
    pub fn from_bytes(src: &[u8]) -> (r: Result<Allotment, Error>)
        ensures
            r == Allotment::spec_decode(src@),
    {
        if src.len() != 6 {
            return Err(Error::InvalidLength);
        }
        let unassigned1 = match NotApplicable::from_byte(src[2], 2) {
            Ok(a) => a,
            Err(e) => {
                return Err(e);
            },
        };
        let unassigned2 = match NotApplicable::from_byte(src[3], 3) {
            Ok(a) => a,
            Err(e) => {
                return Err(e);
            },
        };
        let unassigned3 = match NotApplicable::from_byte(src[4], 4) {
            Ok(a) => a,
            Err(e) => {
                return Err(e);
            },
        };
        let form = match Form::from_byte(src[5], 5) {
            Ok(a) => a,
            Err(e) => {
                return Err(e);
            },
        };
        Ok(Allotment { unassigned1, unassigned2, unassigned3, form })
    }

    /// The four attribute bytes, in position order.
    pub fn to_bytes(&self) -> (r: [u8; 4])
        ensures
            r@ == self.spec_bytes(),
    {
        let r = [
            self.unassigned1.to_byte(),
            self.unassigned2.to_byte(),
            self.unassigned3.to_byte(),
            self.form.to_byte(),
        ];
        proof {
            assert(r@ =~= self.spec_bytes());
        }
        r
    }
}

/// Subscription rights.
#[derive(Clone, Copy, Debug, Eq, Hash, Ord, PartialEq, PartialOrd, Structural)]
pub struct Subscription {
    /// Assets (indicates the type of assets that the rights holder is entitled to acquire).
    pub assets: Assets,
    /// Not applicable/undefined.
    pub unassigned2: NotApplicable,
    /// Not applicable/undefined.
    pub unassigned3: NotApplicable,
    /// Form (negotiability, transmission).
    pub form: Form,
}

impl Subscription {
    /// The four attribute bytes, in position order.
    pub open spec fn spec_bytes(self) -> Seq<u8> {
        seq![
            self.assets.spec_byte(),
            self.unassigned2.spec_byte(),
            self.unassigned3.spec_byte(),
            self.form.spec_byte(),
        ]
    }

    /// The value encoded in positions 2-5 of the six-byte code `s`, or
    /// the error for the first invalid position.
    pub open spec fn spec_decode(s: Seq<u8>) -> Result<Subscription, Error> {
        if s.len() != 6 {
            Err(Error::InvalidLength)
        } else {
            match Assets::spec_decode(s[2]) {
                None => Err(Error::InvalidAttribute(2, s[2])),
                Some(assets) => match NotApplicable::spec_decode(s[3]) {
                    None => Err(Error::InvalidAttribute(3, s[3])),
                    Some(unassigned2) => match NotApplicable::spec_decode(s[4]) {
                        None => Err(Error::InvalidAttribute(4, s[4])),
                        Some(unassigned3) => match Form::spec_decode(s[5]) {
                            None => Err(Error::InvalidAttribute(5, s[5])),
                            Some(form) => Ok(Subscription { assets, unassigned2, unassigned3, form }),
                        },
                    },
                },
            }
        }
    }

    /// Decode attribute positions 2-5 of a full six-byte code, failing
    /// on the first invalid position.
    pub fn from_bytes(src: &[u8]) -> (r: Result<Subscription, Error>)
        ensures
            r == Subscription::spec_decode(src@),
    {
        if src.len() != 6 {
            return Err(Error::InvalidLength);
        }
        let assets = match Assets::from_byte(src[2], 2) {
            Ok(a) => a,
            Err(e) => {
                return Err(e);
            },
        };
        let unassigned2 = match NotApplicable::from_byte(src[3], 3) {
            Ok(a) => a,
            Err(e) => {
                return Err(e);
            },
        };
        let unassigned3 = match NotApplicable::from_byte(src[4], 4) {
            Ok(a) => a,
            Err(e) => {
                return Err(e);
            },
        };
        let form = match Form::from_byte(src[5], 5) {
            Ok(a) => a,
            Err(e) => {
                return Err(e);
            },
        };
        Ok(Subscription { assets, unassigned2, unassigned3, form })
    }

    /// The four attribute bytes, in position order.
    pub fn to_bytes(&self) -> (r: [u8; 4])
        ensures
            r@ == self.spec_bytes(),
    {
        let r = [
            self.assets.to_byte(),
            self.unassigned2.to_byte(),
            self.unassigned3.to_byte(),
            self.form.to_byte(),
        ];
        proof {
            assert(r@ =~= self.spec_bytes());
        }
        r
    }
}

/// Purchase rights.
#[derive(Clone, Copy, Debug, Eq, Hash, Ord, PartialEq, PartialOrd, Structural)]
pub struct Purchase {
    /// Assets (indicates the type of assets that the rights holder is entitled to acquire).
    pub assets: Assets,
    /// Not applicable/undefined.
    pub undefined2: NotApplicable,
    /// Not applicable/undefined.
    pub undefined3: NotApplicable,
    /// Form (negotiability, transmission).
    pub form: Form,
}

impl Purchase {
    /// The four attribute bytes, in position order.
    pub open spec fn spec_bytes(self) -> Seq<u8> {
        seq![
            self.assets.spec_byte(),
            self.undefined2.spec_byte(),
            self.undefined3.spec_byte(),
            self.form.spec_byte(),
        ]
    }

    /// The value encoded in positions 2-5 of the six-byte code `s`, or
    /// the error for the first invalid position.
    pub open spec fn spec_decode(s: Seq<u8>) -> Result<Purchase, Error> {
        if s.len() != 6 {
            Err(Error::InvalidLength)
        } else {
            match Assets::spec_decode(s[2]) {
                None => Err(Error::InvalidAttribute(2, s[2])),
                Some(assets) => match NotApplicable::spec_decode(s[3]) {
                    None => Err(Error::InvalidAttribute(3, s[3])),
                    Some(undefined2) => match NotApplicable::spec_decode(s[4]) {
                        None => Err(Error::InvalidAttribute(4, s[4])),
                        Some(undefined3) => match Form::spec_decode(s[5]) {
                            None => Err(Error::InvalidAttribute(5, s[5])),
                            Some(form) => Ok(Purchase { assets, undefined2, undefined3, form }),
                        },
                    },
                },
            }
        }
    }

    /// Decode attribute positions 2-5 of a full six-byte code, failing
    /// on the first invalid position.
    pub fn from_bytes(src: &[u8]) -> (r: Result<Purchase, Error>)
        ensures
            r == Purchase::spec_decode(src@),
    {
        if src.len() != 6 {
            return Err(Error::InvalidLength);
        }
        let assets = match Assets::from_byte(src[2], 2) {
            Ok(a) => a,
            Err(e) => {
                return Err(e);
            },
        };
        let undefined2 = match NotApplicable::from_byte(src[3], 3) {
            Ok(a) => a,
            Err(e) => {
                return Err(e);
            },
        };
        let undefined3 = match NotApplicable::from_byte(src[4], 4) {
            Ok(a) => a,
            Err(e) => {
                return Err(e);
            },
        };
        let form = match Form::from_byte(src[5], 5) {
            Ok(a) => a,
            Err(e) => {
                return Err(e);
            },
        };
        Ok(Purchase { assets, undefined2, undefined3, form })
    }

    /// The four attribute bytes, in position order.
    pub fn to_bytes(&self) -> (r: [u8; 4])
        ensures
            r@ == self.spec_bytes(),
    {
        let r = [
            self.assets.to_byte(),
            self.undefined2.to_byte(),
            self.undefined3.to_byte(),
            self.form.to_byte(),
        ];
        proof {
            assert(r@ =~= self.spec_bytes());
        }
        r
    }
}

/// Warrants.
#[derive(Clone, Copy, Debug, Eq, Hash, Ord, PartialEq, PartialOrd, Structural)]
pub struct Warrant {
    /// Underlying assets (indicates the type of underlying assets that the warrant holder is
    /// entitled to acquire).
    pub asset: Assets,
    /// Type (indicates whether the warrant is issued by the issuer of the underlying
    /// instrument or by a third party).
    pub kind: Kind,
    /// Call/put (indicates whether the warrant entitles the holder to acquire assets at
    /// specified terms or to acquire cash in exchange for specific underlying assets).
    pub call_put: CallPut,
    /// Exercise option style.
    pub exercise_style: ExerciseStyle,
}

impl Warrant {
    /// The four attribute bytes, in position order.
    pub open spec fn spec_bytes(self) -> Seq<u8> {
        seq![
            self.asset.spec_byte(),
            self.kind.spec_byte(),
            self.call_put.spec_byte(),
            self.exercise_style.spec_byte(),
        ]
    }

    /// The value encoded in positions 2-5 of the six-byte code `s`, or
    /// the error for the first invalid position.
    pub open spec fn spec_decode(s: Seq<u8>) -> Result<Warrant, Error> {
        if s.len() != 6 {
            Err(Error::InvalidLength)
        } else {
            match Assets::spec_decode(s[2]) {
                None => Err(Error::InvalidAttribute(2, s[2])),
                Some(asset) => match Kind::spec_decode(s[3]) {
                    None => Err(Error::InvalidAttribute(3, s[3])),
                    Some(kind) => match CallPut::spec_decode(s[4]) {
                        None => Err(Error::InvalidAttribute(4, s[4])),
                        Some(call_put) => match ExerciseStyle::spec_decode(s[5]) {
                            None => Err(Error::InvalidAttribute(5, s[5])),
                            Some(exercise_style) => Ok(Warrant { asset, kind, call_put, exercise_style }),
                        },
                    },
                },
            }
        }
    }

    /// Decode attribute positions 2-5 of a full six-byte code, failing
    /// on the first invalid position.
    pub fn from_bytes(src: &[u8]) -> (r: Result<Warrant, Error>)
        ensures
            r == Warrant::spec_decode(src@),
    {
        if src.len() != 6 {
            return Err(Error::InvalidLength);
        }
        let asset = match Assets::from_byte(src[2], 2) {
            Ok(a) => a,
            Err(e) => {
                return Err(e);
            },
        };
        let kind = match Kind::from_byte(src[3], 3) {
            Ok(a) => a,
            Err(e) => {
                return Err(e);
            },
        };
        let call_put = match CallPut::from_byte(src[4], 4) {
            Ok(a) => a,
            Err(e) => {
                return Err(e);
            },
        };
        let exercise_style = match ExerciseStyle::from_byte(src[5], 5) {
            Ok(a) => a,
            Err(e) => {
                return Err(e);
            },
        };
        Ok(Warrant { asset, kind, call_put, exercise_style })
    }

    /// The four attribute bytes, in position order.
    pub fn to_bytes(&self) -> (r: [u8; 4])
        ensures
            r@ == self.spec_bytes(),
    {
        let r = [
            self.asset.to_byte(),
            self.kind.to_byte(),
            self.call_put.to_byte(),
            self.exercise_style.to_byte(),
        ];
        proof {
            assert(r@ =~= self.spec_bytes());
        }
        r
    }
}

/// Mini-future certificates, constant leverage certificates.
#[derive(Clone, Copy, Debug, Eq, Hash, Ord, PartialEq, PartialOrd, Structural)]
pub struct MiniFuture {
    /// Underlying assets (indicates the type of underlying assets that the warrant holder is
    /// entitled to acquire).
    pub asset: FutureAsset,
    /// Barrier dependency type (indicates whether the instrument barrier depends on the
    /// underlying level or on the instrument trading price level).
    pub barrier: Barrier,
    /// Long/short (indicates whether the instrument entitles the holder to acquire assets at
    /// specified terms or to acquire cash in exchange for specific underlying assets).
    pub long_short: LongShort,
    /// Exercise option style
    pub exercise_style: ExerciseStyle,
}

impl MiniFuture {
    /// The four attribute bytes, in position order.
    pub open spec fn spec_bytes(self) -> Seq<u8> {
        seq![
            self.asset.spec_byte(),
            self.barrier.spec_byte(),
            self.long_short.spec_byte(),
            self.exercise_style.spec_byte(),
        ]
    }

    /// The value encoded in positions 2-5 of the six-byte code `s`, or
    /// the error for the first invalid position.
    pub open spec fn spec_decode(s: Seq<u8>) -> Result<MiniFuture, Error> {
        if s.len() != 6 {
            Err(Error::InvalidLength)
        } else {
            match FutureAsset::spec_decode(s[2]) {
                None => Err(Error::InvalidAttribute(2, s[2])),
                Some(asset) => match Barrier::spec_decode(s[3]) {
                    None => Err(Error::InvalidAttribute(3, s[3])),
                    Some(barrier) => match LongShort::spec_decode(s[4]) {
                        None => Err(Error::InvalidAttribute(4, s[4])),
                        Some(long_short) => match ExerciseStyle::spec_decode(s[5]) {
                            None => Err(Error::InvalidAttribute(5, s[5])),
                            Some(exercise_style) => Ok(MiniFuture { asset, barrier, long_short, exercise_style }),
                        },
                    },
                },
            }
        }
    }

    /// Decode attribute positions 2-5 of a full six-byte code, failing
    /// on the first invalid position.
    pub fn from_bytes(src: &[u8]) -> (r: Result<MiniFuture, Error>)
        ensures
            r == MiniFuture::spec_decode(src@),
    {
        if src.len() != 6 {
            return Err(Error::InvalidLength);
        }
        let asset = match FutureAsset::from_byte(src[2], 2) {
            Ok(a) => a,
            Err(e) => {
                return Err(e);
            },
        };
        let barrier = match Barrier::from_byte(src[3], 3) {
            Ok(a) => a,
            Err(e) => {
                return Err(e);
            },
        };
        let long_short = match LongShort::from_byte(src[4], 4) {
            Ok(a) => a,
            Err(e) => {
                return Err(e);
            },
        };
        let exercise_style = match ExerciseStyle::from_byte(src[5], 5) {
            Ok(a) => a,
            Err(e) => {
                return Err(e);
            },
        };
        Ok(MiniFuture { asset, barrier, long_short, exercise_style })
    }

    /// The four attribute bytes, in position order.
    pub fn to_bytes(&self) -> (r: [u8; 4])
        ensures
            r@ == self.spec_bytes(),
    {
        let r = [
            self.asset.to_byte(),
            self.barrier.to_byte(),
            self.long_short.to_byte(),
            self.exercise_style.to_byte(),
        ];
        proof {
            assert(r@ =~= self.spec_bytes());
        }
        r
    }
}

/// Depositary receipts on entitlements.
#[derive(Clone, Copy, Debug, Eq, Hash, Ord, PartialEq, PartialOrd, Structural)]
pub struct DepositoryReceipt {
    /// Instrument dependency.
    pub dependency: Dependency,
    /// Not applicable/undefined.
    pub undefined2: NotApplicable,
    /// Not applicable/undefined.
    pub undefined3: NotApplicable,
    /// Form (negotiability, transmission).
    pub form: Form,
}

impl DepositoryReceipt {
    /// The four attribute bytes, in position order.
    pub open spec fn spec_bytes(self) -> Seq<u8> {
        seq![
            self.dependency.spec_byte(),
            self.undefined2.spec_byte(),
            self.undefined3.spec_byte(),
            self.form.spec_byte(),
        ]
    }

    /// The value encoded in positions 2-5 of the six-byte code `s`, or
    /// the error for the first invalid position.
    pub open spec fn spec_decode(s: Seq<u8>) -> Result<DepositoryReceipt, Error> {
        if s.len() != 6 {
            Err(Error::InvalidLength)
        } else {
            match Dependency::spec_decode(s[2]) {
                None => Err(Error::InvalidAttribute(2, s[2])),
                Some(dependency) => match NotApplicable::spec_decode(s[3]) {
                    None => Err(Error::InvalidAttribute(3, s[3])),
                    Some(undefined2) => match NotApplicable::spec_decode(s[4]) {
                        None => Err(Error::InvalidAttribute(4, s[4])),
                        Some(undefined3) => match Form::spec_decode(s[5]) {
                            None => Err(Error::InvalidAttribute(5, s[5])),
                            Some(form) => Ok(DepositoryReceipt { dependency, undefined2, undefined3, form }),
                        },
                    },
                },
            }
        }
    }

    /// Decode attribute positions 2-5 of a full six-byte code, failing
    /// on the first invalid position.
    pub fn from_bytes(src: &[u8]) -> (r: Result<DepositoryReceipt, Error>)
        ensures
            r == DepositoryReceipt::spec_decode(src@),
    {
        if src.len() != 6 {
            return Err(Error::InvalidLength);
        }
        let dependency = match Dependency::from_byte(src[2], 2) {
            Ok(a) => a,
            Err(e) => {
                return Err(e);
            },
        };
        let undefined2 = match NotApplicable::from_byte(src[3], 3) {
            Ok(a) => a,
            Err(e) => {
                return Err(e);
            },
        };
        let undefined3 = match NotApplicable::from_byte(src[4], 4) {
            Ok(a) => a,
            Err(e) => {
                return Err(e);
            },
        };
        let form = match Form::from_byte(src[5], 5) {
            Ok(a) => a,
            Err(e) => {
                return Err(e);
            },
        };
        Ok(DepositoryReceipt { dependency, undefined2, undefined3, form })
    }

    /// The four attribute bytes, in position order.
    pub fn to_bytes(&self) -> (r: [u8; 4])
        ensures
            r@ == self.spec_bytes(),
    {
        let r = [
            self.dependency.to_byte(),
            self.undefined2.to_byte(),
            self.undefined3.to_byte(),
            self.form.to_byte(),
        ];
        proof {
            assert(r@ =~= self.spec_bytes());
        }
        r
    }
}

/// Other (miscellaneous).
#[derive(Clone, Copy, Debug, Eq, Hash, Ord, PartialEq, PartialOrd, Structural)]
pub struct Other {
    /// Not applicable/undefined.
    pub undefined1: NotApplicable,
    /// Not applicable/undefined.
    pub undefined2: NotApplicable,
    /// Not applicable/undefined.
    pub undefined3: NotApplicable,
    /// Not applicable/undefined.
    pub undefined4: NotApplicable,
}

impl Other {
    /// The four attribute bytes, in position order.
    pub open spec fn spec_bytes(self) -> Seq<u8> {
        seq![
            self.undefined1.spec_byte(),
            self.undefined2.spec_byte(),
            self.undefined3.spec_byte(),
            self.undefined4.spec_byte(),
        ]
    }

    /// The value encoded in positions 2-5 of the six-byte code `s`, or
    /// the error for the first invalid position.
    pub open spec fn spec_decode(s: Seq<u8>) -> Result<Other, Error> {
        if s.len() != 6 {
            Err(Error::InvalidLength)
        } else {
            match NotApplicable::spec_decode(s[2]) {
                None => Err(Error::InvalidAttribute(2, s[2])),
                Some(undefined1) => match NotApplicable::spec_decode(s[3]) {
                    None => Err(Error::InvalidAttribute(3, s[3])),
                    Some(undefined2) => match NotApplicable::spec_decode(s[4]) {
                        None => Err(Error::InvalidAttribute(4, s[4])),
                        Some(undefined3) => match NotApplicable::spec_decode(s[5]) {
                            None => Err(Error::InvalidAttribute(5, s[5])),
                            Some(undefined4) => Ok(Other { undefined1, undefined2, undefined3, undefined4 }),
                        },
                    },
                },
            }
        }
    }

    /// Decode attribute positions 2-5 of a full six-byte code, failing
    /// on the first invalid position.
    pub fn from_bytes(src: &[u8]) -> (r: Result<Other, Error>)
        ensures
            r == Other::spec_decode(src@),
    {
        if src.len() != 6 {
            return Err(Error::InvalidLength);
        }
        let undefined1 = match NotApplicable::from_byte(src[2], 2) {
            Ok(a) => a,
            Err(e) => {
                return Err(e);
            },
        };
        let undefined2 = match NotApplicable::from_byte(src[3], 3) {
            Ok(a) => a,
            Err(e) => {
                return Err(e);
            },
        };
        let undefined3 = match NotApplicable::from_byte(src[4], 4) {
            Ok(a) => a,
            Err(e) => {
                return Err(e);
            },
        };
        let undefined4 = match NotApplicable::from_byte(src[5], 5) {
            Ok(a) => a,
            Err(e) => {
                return Err(e);
            },
        };
        Ok(Other { undefined1, undefined2, undefined3, undefined4 })
    }

    /// The four attribute bytes, in position order.
    pub fn to_bytes(&self) -> (r: [u8; 4])
        ensures
            r@ == self.spec_bytes(),
    {
        let r = [
            self.undefined1.to_byte(),
            self.undefined2.to_byte(),
            self.undefined3.to_byte(),
            self.undefined4.to_byte(),
        ];
        proof {
            assert(r@ =~= self.spec_bytes());
        }
        r
    }
}

/// Assets (indicates the type of assets that the rights holder is entitled to acquire).
#[derive(Clone, Copy, Debug, Eq, Hash, Ord, PartialEq, PartialOrd, Structural)]
pub enum Assets {
    /// `S`: Common/ordinary shares.
    Common,
    /// `P`: Preferred/preference shares.
    Preferred,
    /// `C`: Common/ordinary convertible shares.
    Convertible,
    /// `F`: Preferred/preference convertible shares.
    PreferredConvertible,
    /// `B`: Bonds.
    Bonds,
    /// `I`: Combined instruments.
    Combined,
    /// `M`: Other (miscellaneous).
    Other,
    /// `X`: Not applicable or undefined.
    Undefined,
}

impl Assets {
    /// The code character assigned to this value.
    pub open spec fn spec_byte(self) -> u8 {
        match self {
            Assets::Common => 'S' as u8,
            Assets::Preferred => 'P' as u8,
            Assets::Convertible => 'C' as u8,
            Assets::PreferredConvertible => 'F' as u8,
            Assets::Bonds => 'B' as u8,
            Assets::Combined => 'I' as u8,
            Assets::Other => 'M' as u8,
            Assets::Undefined => 'X' as u8,
        }
    }

    /// The member encoded by `b`, if `b` lies in this attribute's alphabet.
    pub open spec fn spec_decode(b: u8) -> Option<Assets> {
        if b == 'S' as u8 {
            Some(Assets::Common)
        } else if b == 'P' as u8 {
            Some(Assets::Preferred)
        } else if b == 'C' as u8 {
            Some(Assets::Convertible)
        } else if b == 'F' as u8 {
            Some(Assets::PreferredConvertible)
        } else if b == 'B' as u8 {
            Some(Assets::Bonds)
        } else if b == 'I' as u8 {
            Some(Assets::Combined)
        } else if b == 'M' as u8 {
            Some(Assets::Other)
        } else if b == 'X' as u8 {
            Some(Assets::Undefined)
        } else {
            None
        }
    }

    /// Decode the attribute byte found at position `pos` of a code.
    pub fn from_byte(b: u8, pos: usize) -> (r: Result<Assets, Error>)
        ensures
            match Assets::spec_decode(b) {
                Some(a) => r == Ok::<Assets, Error>(a),
                None => r == Err::<Assets, Error>(Error::InvalidAttribute(pos, b)),
            },
    {
        if b == 'S' as u8 {
            Ok(Assets::Common)
        } else if b == 'P' as u8 {
            Ok(Assets::Preferred)
        } else if b == 'C' as u8 {
            Ok(Assets::Convertible)
        } else if b == 'F' as u8 {
            Ok(Assets::PreferredConvertible)
        } else if b == 'B' as u8 {
            Ok(Assets::Bonds)
        } else if b == 'I' as u8 {
            Ok(Assets::Combined)
        } else if b == 'M' as u8 {
            Ok(Assets::Other)
        } else if b == 'X' as u8 {
            Ok(Assets::Undefined)
        } else {
            Err(Error::InvalidAttribute(pos, b))
        }
    }

    /// The byte this value encodes to; the inverse of decoding.
    pub fn to_byte(&self) -> (r: u8)
        ensures
            r == self.spec_byte(),
    {
        match self {
            Assets::Common => 'S' as u8,
            Assets::Preferred => 'P' as u8,
            Assets::Convertible => 'C' as u8,
            Assets::PreferredConvertible => 'F' as u8,
            Assets::Bonds => 'B' as u8,
            Assets::Combined => 'I' as u8,
            Assets::Other => 'M' as u8,
            Assets::Undefined => 'X' as u8,
        }
    }

    /// Check if this value is [`Assets::Common`].
    pub fn is_common(&self) -> (r: bool)
        ensures
            r == (self is Common),
    {
        matches!(self, Assets::Common)
    }

    /// Check if this value is [`Assets::Preferred`].
    pub fn is_preferred(&self) -> (r: bool)
        ensures
            r == (self is Preferred),
    {
        matches!(self, Assets::Preferred)
    }

    /// Check if this value is [`Assets::Convertible`].
    pub fn is_convertible(&self) -> (r: bool)
        ensures
            r == (self is Convertible),
    {
        matches!(self, Assets::Convertible)
    }

    /// Check if this value is [`Assets::PreferredConvertible`].
    pub fn is_preferred_convertible(&self) -> (r: bool)
        ensures
            r == (self is PreferredConvertible),
    {
        matches!(self, Assets::PreferredConvertible)
    }

    /// Check if this value is [`Assets::Bonds`].
    pub fn is_bonds(&self) -> (r: bool)
        ensures
            r == (self is Bonds),
    {
        matches!(self, Assets::Bonds)
    }

    /// Check if this value is [`Assets::Combined`].
    pub fn is_combined(&self) -> (r: bool)
        ensures
            r == (self is Combined),
    {
        matches!(self, Assets::Combined)
    }

    /// Check if this value is [`Assets::Other`].
    pub fn is_other(&self) -> (r: bool)
        ensures
            r == (self is Other),
    {
        matches!(self, Assets::Other)
    }

    /// Check if this value is [`Assets::Undefined`].
    pub fn is_undefined(&self) -> (r: bool)
        ensures
            r == (self is Undefined),
    {
        matches!(self, Assets::Undefined)
    }
}

/// Type.
#[derive(Clone, Copy, Debug, Eq, Hash, Ord, PartialEq, PartialOrd, Structural)]
pub enum Kind {
    /// `T`: Traditional warrants.
    Traditional,
    /// `N`: Naked warrants.
    Naked,
    /// `C`: Covered warrants.
    Covered,
    /// `X`: Not applicable or undefined.
    Undefined,
}

impl Kind {
    /// The code character assigned to this value.
    pub open spec fn spec_byte(self) -> u8 {
        match self {
            Kind::Traditional => 'T' as u8,
            Kind::Naked => 'N' as u8,
            Kind::Covered => 'C' as u8,
            Kind::Undefined => 'X' as u8,
        }
    }

    /// The member encoded by `b`, if `b` lies in this attribute's alphabet.
    pub open spec fn spec_decode(b: u8) -> Option<Kind> {
        if b == 'T' as u8 {
            Some(Kind::Traditional)
        } else if b == 'N' as u8 {
            Some(Kind::Naked)
        } else if b == 'C' as u8 {
            Some(Kind::Covered)
        } else if b == 'X' as u8 {
            Some(Kind::Undefined)
        } else {
            None
        }
    }

    /// Decode the attribute byte found at position `pos` of a code.
    pub fn from_byte(b: u8, pos: usize) -> (r: Result<Kind, Error>)
        ensures
            match Kind::spec_decode(b) {
                Some(a) => r == Ok::<Kind, Error>(a),
                None => r == Err::<Kind, Error>(Error::InvalidAttribute(pos, b)),
            },
    {
        if b == 'T' as u8 {
            Ok(Kind::Traditional)
        } else if b == 'N' as u8 {
            Ok(Kind::Naked)
        } else if b == 'C' as u8 {
            Ok(Kind::Covered)
        } else if b == 'X' as u8 {
            Ok(Kind::Undefined)
        } else {
            Err(Error::InvalidAttribute(pos, b))
        }
    }

    /// The byte this value encodes to; the inverse of decoding.
    pub fn to_byte(&self) -> (r: u8)
        ensures
            r == self.spec_byte(),
    {
        match self {
            Kind::Traditional => 'T' as u8,
            Kind::Naked => 'N' as u8,
            Kind::Covered => 'C' as u8,
            Kind::Undefined => 'X' as u8,
        }
    }

    /// Check if this value is [`Kind::Traditional`].
    pub fn is_traditional(&self) -> (r: bool)
        ensures
            r == (self is Traditional),
    {
        matches!(self, Kind::Traditional)
    }

    /// Check if this value is [`Kind::Naked`].
    pub fn is_naked(&self) -> (r: bool)
        ensures
            r == (self is Naked),
    {
        matches!(self, Kind::Naked)
    }

    /// Check if this value is [`Kind::Covered`].
    pub fn is_covered(&self) -> (r: bool)
        ensures
            r == (self is Covered),
    {
        matches!(self, Kind::Covered)
    }

    /// Check if this value is [`Kind::Undefined`].
    pub fn is_undefined(&self) -> (r: bool)
        ensures
            r == (self is Undefined),
    {
        matches!(self, Kind::Undefined)
    }
}

/// Call/put.
#[derive(Clone, Copy, Debug, Eq, Hash, Ord, PartialEq, PartialOrd, Structural)]
pub enum CallPut {
    /// `C`: Call.
    Call,
    /// `P`: Put.
    Put,
    /// `B`: Call and put.
    CallAndPut,
    /// `X`: Not applicable or undefined.
    Undefined,
}

impl CallPut {
    /// The code character assigned to this value.
    pub open spec fn spec_byte(self) -> u8 {
        match self {
            CallPut::Call => 'C' as u8,
            CallPut::Put => 'P' as u8,
            CallPut::CallAndPut => 'B' as u8,
            CallPut::Undefined => 'X' as u8,
        }
    }

    /// The member encoded by `b`, if `b` lies in this attribute's alphabet.
    pub open spec fn spec_decode(b: u8) -> Option<CallPut> {
        if b == 'C' as u8 {
            Some(CallPut::Call)
        } else if b == 'P' as u8 {
            Some(CallPut::Put)
        } else if b == 'B' as u8 {
            Some(CallPut::CallAndPut)
        } else if b == 'X' as u8 {
            Some(CallPut::Undefined)
        } else {
            None
        }
    }

    /// Decode the attribute byte found at position `pos` of a code.
    pub fn from_byte(b: u8, pos: usize) -> (r: Result<CallPut, Error>)
        ensures
            match CallPut::spec_decode(b) {
                Some(a) => r == Ok::<CallPut, Error>(a),
                None => r == Err::<CallPut, Error>(Error::InvalidAttribute(pos, b)),
            },
    {
        if b == 'C' as u8 {
            Ok(CallPut::Call)
        } else if b == 'P' as u8 {
            Ok(CallPut::Put)
        } else if b == 'B' as u8 {
            Ok(CallPut::CallAndPut)
        } else if b == 'X' as u8 {
            Ok(CallPut::Undefined)
        } else {
            Err(Error::InvalidAttribute(pos, b))
        }
    }

    /// The byte this value encodes to; the inverse of decoding.
    pub fn to_byte(&self) -> (r: u8)
        ensures
            r == self.spec_byte(),
    {
        match self {
            CallPut::Call => 'C' as u8,
            CallPut::Put => 'P' as u8,
            CallPut::CallAndPut => 'B' as u8,
            CallPut::Undefined => 'X' as u8,
        }
    }

    /// Check if this value is [`CallPut::Call`].
    pub fn is_call(&self) -> (r: bool)
        ensures
            r == (self is Call),
    {
        matches!(self, CallPut::Call)
    }

    /// Check if this value is [`CallPut::Put`].
    pub fn is_put(&self) -> (r: bool)
        ensures
            r == (self is Put),
    {
        matches!(self, CallPut::Put)
    }

    /// Check if this value is [`CallPut::CallAndPut`].
    pub fn is_call_and_put(&self) -> (r: bool)
        ensures
            r == (self is CallAndPut),
    {
        matches!(self, CallPut::CallAndPut)
    }

    /// Check if this value is [`CallPut::Undefined`].
    pub fn is_undefined(&self) -> (r: bool)
        ensures
            r == (self is Undefined),
    {
        matches!(self, CallPut::Undefined)
    }
}

/// Exercise option style.
#[derive(Clone, Copy, Debug, Eq, Hash, Ord, PartialEq, PartialOrd, Structural)]
pub enum ExerciseStyle {
    /// `E`: European.
    European,
    /// `A`: American.
    American,
    /// `B`: Bermudan.
    Bermudan,
    /// `M`: Others (miscellaneous).
    Other,
    /// `X`: Not applicable or undefined.
    Undefined,
}

impl ExerciseStyle {
    /// The code character assigned to this value.
    pub open spec fn spec_byte(self) -> u8 {
        match self {
            ExerciseStyle::European => 'E' as u8,
            ExerciseStyle::American => 'A' as u8,
            ExerciseStyle::Bermudan => 'B' as u8,
            ExerciseStyle::Other => 'M' as u8,
            ExerciseStyle::Undefined => 'X' as u8,
        }
    }

    /// The member encoded by `b`, if `b` lies in this attribute's alphabet.
    pub open spec fn spec_decode(b: u8) -> Option<ExerciseStyle> {
        if b == 'E' as u8 {
            Some(ExerciseStyle::European)
        } else if b == 'A' as u8 {
            Some(ExerciseStyle::American)
        } else if b == 'B' as u8 {
            Some(ExerciseStyle::Bermudan)
        } else if b == 'M' as u8 {
            Some(ExerciseStyle::Other)
        } else if b == 'X' as u8 {
            Some(ExerciseStyle::Undefined)
        } else {
            None
        }
    }

    /// Decode the attribute byte found at position `pos` of a code.
    pub fn from_byte(b: u8, pos: usize) -> (r: Result<ExerciseStyle, Error>)
        ensures
            match ExerciseStyle::spec_decode(b) {
                Some(a) => r == Ok::<ExerciseStyle, Error>(a),
                None => r == Err::<ExerciseStyle, Error>(Error::InvalidAttribute(pos, b)),
            },
    {
        if b == 'E' as u8 {
            Ok(ExerciseStyle::European)
        } else if b == 'A' as u8 {
            Ok(ExerciseStyle::American)
        } else if b == 'B' as u8 {
            Ok(ExerciseStyle::Bermudan)
        } else if b == 'M' as u8 {
            Ok(ExerciseStyle::Other)
        } else if b == 'X' as u8 {
            Ok(ExerciseStyle::Undefined)
        } else {
            Err(Error::InvalidAttribute(pos, b))
        }
    }

    /// The byte this value encodes to; the inverse of decoding.
    pub fn to_byte(&self) -> (r: u8)
        ensures
            r == self.spec_byte(),
    {
        match self {
            ExerciseStyle::European => 'E' as u8,
            ExerciseStyle::American => 'A' as u8,
            ExerciseStyle::Bermudan => 'B' as u8,
            ExerciseStyle::Other => 'M' as u8,
            ExerciseStyle::Undefined => 'X' as u8,
        }
    }

    /// Check if this value is [`ExerciseStyle::European`].
    pub fn is_european(&self) -> (r: bool)
        ensures
            r == (self is European),
    {
        matches!(self, ExerciseStyle::European)
    }

    /// Check if this value is [`ExerciseStyle::American`].
    pub fn is_american(&self) -> (r: bool)
        ensures
            r == (self is American),
    {
        matches!(self, ExerciseStyle::American)
    }

    /// Check if this value is [`ExerciseStyle::Bermudan`].
    pub fn is_bermudan(&self) -> (r: bool)
        ensures
            r == (self is Bermudan),
    {
        matches!(self, ExerciseStyle::Bermudan)
    }

    /// Check if this value is [`ExerciseStyle::Other`].
    pub fn is_other(&self) -> (r: bool)
        ensures
            r == (self is Other),
    {
        matches!(self, ExerciseStyle::Other)
    }

    /// Check if this value is [`ExerciseStyle::Undefined`].
    pub fn is_undefined(&self) -> (r: bool)
        ensures
            r == (self is Undefined),
    {
        matches!(self, ExerciseStyle::Undefined)
    }
}

/// Underlying assets.
#[derive(Clone, Copy, Debug, Eq, Hash, Ord, PartialEq, PartialOrd, Structural)]
pub enum FutureAsset {
    /// `B`: Baskets (the warrant holder is entitled to acquire a package or group of assets).
    Basket,
    /// `S`: Equities (the warrant holder is entitled to acquire equity).
    Equity,
    /// `D`: Debt instruments/interest rates (the warrant holder is entitled to acquire debt
    /// instruments).
    Debt,
    /// `T`: Commodities (the warrant holder is entitled to acquire a specific commodity).
    Commodity,
    /// `C`: Currencies (the warrant holder is entitled to acquire a specified amount in a certain
    /// currency at a specified exchange rate).
    Currency,
    /// `I`: Indices (the warrant holder is entitled to acquire a specified amount based on the
    /// performance of an index).
    Index,
    /// `M`: Others (miscellaneous).
    Other,
    /// `X`: Not applicable or undefined.
    Undefined,
}

impl FutureAsset {
    /// The code character assigned to this value.
    pub open spec fn spec_byte(self) -> u8 {
        match self {
            FutureAsset::Basket => 'B' as u8,
            FutureAsset::Equity => 'S' as u8,
            FutureAsset::Debt => 'D' as u8,
            FutureAsset::Commodity => 'T' as u8,
            FutureAsset::Currency => 'C' as u8,
            FutureAsset::Index => 'I' as u8,
            FutureAsset::Other => 'M' as u8,
            FutureAsset::Undefined => 'X' as u8,
        }
    }

    /// The member encoded by `b`, if `b` lies in this attribute's alphabet.
    pub open spec fn spec_decode(b: u8) -> Option<FutureAsset> {
        if b == 'B' as u8 {
            Some(FutureAsset::Basket)
        } else if b == 'S' as u8 {
            Some(FutureAsset::Equity)
        } else if b == 'D' as u8 {
            Some(FutureAsset::Debt)
        } else if b == 'T' as u8 {
            Some(FutureAsset::Commodity)
        } else if b == 'C' as u8 {
            Some(FutureAsset::Currency)
        } else if b == 'I' as u8 {
            Some(FutureAsset::Index)
        } else if b == 'M' as u8 {
            Some(FutureAsset::Other)
        } else if b == 'X' as u8 {
            Some(FutureAsset::Undefined)
        } else {
            None
        }
    }

    /// Decode the attribute byte found at position `pos` of a code.
    pub fn from_byte(b: u8, pos: usize) -> (r: Result<FutureAsset, Error>)
        ensures
            match FutureAsset::spec_decode(b) {
                Some(a) => r == Ok::<FutureAsset, Error>(a),
                None => r == Err::<FutureAsset, Error>(Error::InvalidAttribute(pos, b)),
            },
    {
        if b == 'B' as u8 {
            Ok(FutureAsset::Basket)
        } else if b == 'S' as u8 {
            Ok(FutureAsset::Equity)
        } else if b == 'D' as u8 {
            Ok(FutureAsset::Debt)
        } else if b == 'T' as u8 {
            Ok(FutureAsset::Commodity)
        } else if b == 'C' as u8 {
            Ok(FutureAsset::Currency)
        } else if b == 'I' as u8 {
            Ok(FutureAsset::Index)
        } else if b == 'M' as u8 {
            Ok(FutureAsset::Other)
        } else if b == 'X' as u8 {
            Ok(FutureAsset::Undefined)
        } else {
            Err(Error::InvalidAttribute(pos, b))
        }
    }

    /// The byte this value encodes to; the inverse of decoding.
    pub fn to_byte(&self) -> (r: u8)
        ensures
            r == self.spec_byte(),
    {
        match self {
            FutureAsset::Basket => 'B' as u8,
            FutureAsset::Equity => 'S' as u8,
            FutureAsset::Debt => 'D' as u8,
            FutureAsset::Commodity => 'T' as u8,
            FutureAsset::Currency => 'C' as u8,
            FutureAsset::Index => 'I' as u8,
            FutureAsset::Other => 'M' as u8,
            FutureAsset::Undefined => 'X' as u8,
        }
    }

    /// Check if this value is [`FutureAsset::Basket`].
    pub fn is_basket(&self) -> (r: bool)
        ensures
            r == (self is Basket),
    {
        matches!(self, FutureAsset::Basket)
    }

    /// Check if this value is [`FutureAsset::Equity`].
    pub fn is_equity(&self) -> (r: bool)
        ensures
            r == (self is Equity),
    {
        matches!(self, FutureAsset::Equity)
    }

    /// Check if this value is [`FutureAsset::Debt`].
    pub fn is_debt(&self) -> (r: bool)
        ensures
            r == (self is Debt),
    {
        matches!(self, FutureAsset::Debt)
    }

    /// Check if this value is [`FutureAsset::Commodity`].
    pub fn is_commodity(&self) -> (r: bool)
        ensures
            r == (self is Commodity),
    {
        matches!(self, FutureAsset::Commodity)
    }

    /// Check if this value is [`FutureAsset::Currency`].
    pub fn is_currency(&self) -> (r: bool)
        ensures
            r == (self is Currency),
    {
        matches!(self, FutureAsset::Currency)
    }

    /// Check if this value is [`FutureAsset::Index`].
    pub fn is_index(&self) -> (r: bool)
        ensures
            r == (self is Index),
    {
        matches!(self, FutureAsset::Index)
    }

    /// Check if this value is [`FutureAsset::Other`].
    pub fn is_other(&self) -> (r: bool)
        ensures
            r == (self is Other),
    {
        matches!(self, FutureAsset::Other)
    }

    /// Check if this value is [`FutureAsset::Undefined`].
    pub fn is_undefined(&self) -> (r: bool)
        ensures
            r == (self is Undefined),
    {
        matches!(self, FutureAsset::Undefined)
    }
}

/// Barrier dependency type.
#[derive(Clone, Copy, Debug, Eq, Hash, Ord, PartialEq, PartialOrd, Structural)]
pub enum Barrier {
    /// `T`: Barrier underlying based (the instrument immediately expires if the barrier underlying
    /// level is breached during product lifetime).
    Underlying,
    /// `N`: Barrier instrument based (the instrument immediately expires if the barrier instrument
    /// trading price level is breached during product lifetime).
    Instrument,
    /// `M`: Others (miscellaneous).
    Other,
    /// `X`: Not applicable or undefined.
    Undefined,
}

impl Barrier {
    /// The code character assigned to this value.
    pub open spec fn spec_byte(self) -> u8 {
        match self {
            Barrier::Underlying => 'T' as u8,
            Barrier::Instrument => 'N' as u8,
            Barrier::Other => 'M' as u8,
            Barrier::Undefined => 'X' as u8,
        }
    }

    /// The member encoded by `b`, if `b` lies in this attribute's alphabet.
    pub open spec fn spec_decode(b: u8) -> Option<Barrier> {
        if b == 'T' as u8 {
            Some(Barrier::Underlying)
        } else if b == 'N' as u8 {
            Some(Barrier::Instrument)
        } else if b == 'M' as u8 {
            Some(Barrier::Other)
        } else if b == 'X' as u8 {
            Some(Barrier::Undefined)
        } else {
            None
        }
    }

    /// Decode the attribute byte found at position `pos` of a code.
    pub fn from_byte(b: u8, pos: usize) -> (r: Result<Barrier, Error>)
        ensures
            match Barrier::spec_decode(b) {
                Some(a) => r == Ok::<Barrier, Error>(a),
                None => r == Err::<Barrier, Error>(Error::InvalidAttribute(pos, b)),
            },
    {
        if b == 'T' as u8 {
            Ok(Barrier::Underlying)
        } else if b == 'N' as u8 {
            Ok(Barrier::Instrument)
        } else if b == 'M' as u8 {
            Ok(Barrier::Other)
        } else if b == 'X' as u8 {
            Ok(Barrier::Undefined)
        } else {
            Err(Error::InvalidAttribute(pos, b))
        }
    }

    /// The byte this value encodes to; the inverse of decoding.
    pub fn to_byte(&self) -> (r: u8)
        ensures
            r == self.spec_byte(),
    {
        match self {
            Barrier::Underlying => 'T' as u8,
            Barrier::Instrument => 'N' as u8,
            Barrier::Other => 'M' as u8,
            Barrier::Undefined => 'X' as u8,
        }
    }

    /// Check if this value is [`Barrier::Underlying`].
    pub fn is_underlying(&self) -> (r: bool)
        ensures
            r == (self is Underlying),
    {
        matches!(self, Barrier::Underlying)
    }

    /// Check if this value is [`Barrier::Instrument`].
    pub fn is_instrument(&self) -> (r: bool)
        ensures
            r == (self is Instrument),
    {
        matches!(self, Barrier::Instrument)
    }

    /// Check if this value is [`Barrier::Other`].
    pub fn is_other(&self) -> (r: bool)
        ensures
            r == (self is Other),
    {
        matches!(self, Barrier::Other)
    }

    /// Check if this value is [`Barrier::Undefined`].
    pub fn is_undefined(&self) -> (r: bool)
        ensures
            r == (self is Undefined),
    {
        matches!(self, Barrier::Undefined)
    }
}

/// Long/short.
#[derive(Clone, Copy, Debug, Eq, Hash, Ord, PartialEq, PartialOrd, Structural)]
pub enum LongShort {
    /// `C`: Long (in most cases, the instrument entitles the holder to acquire specific underlying
    /// assets during a specified period at a specified price).
    Long,
    /// `P`: Short (the instrument entitles the holder to acquire cash in exchange for specific
    /// underlying assets).
    Short,
    /// `M`: Others (miscellaneous).
    Other,
    /// `X`: Not applicable or undefined.
    Undefined,
}

impl LongShort {
    /// The code character assigned to this value.
    pub open spec fn spec_byte(self) -> u8 {
        match self {
            LongShort::Long => 'C' as u8,
            LongShort::Short => 'P' as u8,
            LongShort::Other => 'M' as u8,
            LongShort::Undefined => 'X' as u8,
        }
    }

    /// The member encoded by `b`, if `b` lies in this attribute's alphabet.
    pub open spec fn spec_decode(b: u8) -> Option<LongShort> {
        if b == 'C' as u8 {
            Some(LongShort::Long)
        } else if b == 'P' as u8 {
            Some(LongShort::Short)
        } else if b == 'M' as u8 {
            Some(LongShort::Other)
        } else if b == 'X' as u8 {
            Some(LongShort::Undefined)
        } else {
            None
        }
    }

    /// Decode the attribute byte found at position `pos` of a code.
    pub fn from_byte(b: u8, pos: usize) -> (r: Result<LongShort, Error>)
        ensures
            match LongShort::spec_decode(b) {
                Some(a) => r == Ok::<LongShort, Error>(a),
                None => r == Err::<LongShort, Error>(Error::InvalidAttribute(pos, b)),
            },
    {
        if b == 'C' as u8 {
            Ok(LongShort::Long)
        } else if b == 'P' as u8 {
            Ok(LongShort::Short)
        } else if b == 'M' as u8 {
            Ok(LongShort::Other)
        } else if b == 'X' as u8 {
            Ok(LongShort::Undefined)
        } else {
            Err(Error::InvalidAttribute(pos, b))
        }
    }

    /// The byte this value encodes to; the inverse of decoding.
    pub fn to_byte(&self) -> (r: u8)
        ensures
            r == self.spec_byte(),
    {
        match self {
            LongShort::Long => 'C' as u8,
            LongShort::Short => 'P' as u8,
            LongShort::Other => 'M' as u8,
            LongShort::Undefined => 'X' as u8,
        }
    }

    /// Check if this value is [`LongShort::Long`].
    pub fn is_long(&self) -> (r: bool)
        ensures
            r == (self is Long),
    {
        matches!(self, LongShort::Long)
    }

    /// Check if this value is [`LongShort::Short`].
    pub fn is_short(&self) -> (r: bool)
        ensures
            r == (self is Short),
    {
        matches!(self, LongShort::Short)
    }

    /// Check if this value is [`LongShort::Other`].
    pub fn is_other(&self) -> (r: bool)
        ensures
            r == (self is Other),
    {
        matches!(self, LongShort::Other)
    }

    /// Check if this value is [`LongShort::Undefined`].
    pub fn is_undefined(&self) -> (r: bool)
        ensures
            r == (self is Undefined),
    {
        matches!(self, LongShort::Undefined)
    }
}

/// Instrument dependency.
#[derive(Clone, Copy, Debug, Eq, Hash, Ord, PartialEq, PartialOrd, Structural)]
pub enum Dependency {
    /// `A`: Allotment (bonus) rights.
    Allotment,
    /// `S`: Subscription rights.
    Subscription,
    /// `P`: Purchase rights.
    Purchase,
    /// `W`: Warrants.
    Warrant,
    /// `M`: Others (miscellaneous).
    Other,
    /// `X`: Not applicable or undefined.
    Undefined,
}

impl Dependency {
    /// The code character assigned to this value.
    pub open spec fn spec_byte(self) -> u8 {
        match self {
            Dependency::Allotment => 'A' as u8,
            Dependency::Subscription => 'S' as u8,
            Dependency::Purchase => 'P' as u8,
            Dependency::Warrant => 'W' as u8,
            Dependency::Other => 'M' as u8,
            Dependency::Undefined => 'X' as u8,
        }
    }

    /// The member encoded by `b`, if `b` lies in this attribute's alphabet.
    pub open spec fn spec_decode(b: u8) -> Option<Dependency> {
        if b == 'A' as u8 {
            Some(Dependency::Allotment)
        } else if b == 'S' as u8 {
            Some(Dependency::Subscription)
        } else if b == 'P' as u8 {
            Some(Dependency::Purchase)
        } else if b == 'W' as u8 {
            Some(Dependency::Warrant)
        } else if b == 'M' as u8 {
            Some(Dependency::Other)
        } else if b == 'X' as u8 {
            Some(Dependency::Undefined)
        } else {
            None
        }
    }

    /// Decode the attribute byte found at position `pos` of a code.
    pub fn from_byte(b: u8, pos: usize) -> (r: Result<Dependency, Error>)
        ensures
            match Dependency::spec_decode(b) {
                Some(a) => r == Ok::<Dependency, Error>(a),
                None => r == Err::<Dependency, Error>(Error::InvalidAttribute(pos, b)),
            },
    {
        if b == 'A' as u8 {
            Ok(Dependency::Allotment)
        } else if b == 'S' as u8 {
            Ok(Dependency::Subscription)
        } else if b == 'P' as u8 {
            Ok(Dependency::Purchase)
        } else if b == 'W' as u8 {
            Ok(Dependency::Warrant)
        } else if b == 'M' as u8 {
            Ok(Dependency::Other)
        } else if b == 'X' as u8 {
            Ok(Dependency::Undefined)
        } else {
            Err(Error::InvalidAttribute(pos, b))
        }
    }

    /// The byte this value encodes to; the inverse of decoding.
    pub fn to_byte(&self) -> (r: u8)
        ensures
            r == self.spec_byte(),
    {
        match self {
            Dependency::Allotment => 'A' as u8,
            Dependency::Subscription => 'S' as u8,
            Dependency::Purchase => 'P' as u8,
            Dependency::Warrant => 'W' as u8,
            Dependency::Other => 'M' as u8,
            Dependency::Undefined => 'X' as u8,
        }
    }

    /// Check if this value is [`Dependency::Allotment`].
    pub fn is_allotment(&self) -> (r: bool)
        ensures
            r == (self is Allotment),
    {
        matches!(self, Dependency::Allotment)
    }

    /// Check if this value is [`Dependency::Subscription`].
    pub fn is_subscription(&self) -> (r: bool)
        ensures
            r == (self is Subscription),
    {
        matches!(self, Dependency::Subscription)
    }

    /// Check if this value is [`Dependency::Purchase`].
    pub fn is_purchase(&self) -> (r: bool)
        ensures
            r == (self is Purchase),
    {
        matches!(self, Dependency::Purchase)
    }

    /// Check if this value is [`Dependency::Warrant`].
    pub fn is_warrant(&self) -> (r: bool)
        ensures
            r == (self is Warrant),
    {
        matches!(self, Dependency::Warrant)
    }

    /// Check if this value is [`Dependency::Other`].
    pub fn is_other(&self) -> (r: bool)
        ensures
            r == (self is Other),
    {
        matches!(self, Dependency::Other)
    }

    /// Check if this value is [`Dependency::Undefined`].
    pub fn is_undefined(&self) -> (r: bool)
        ensures
            r == (self is Undefined),
    {
        matches!(self, Dependency::Undefined)
    }
}

/// The encoding of a [`Right::Allotment`] value re-decodes to itself.
proof fn lemma_decode_encode_allotment(a: Allotment)
    ensures
        Right::Allotment(a).spec_bytes().len() == 6,
        Right::Allotment(a).spec_bytes()[0] == 'R' as u8,
        Right::spec_decode(Right::Allotment(a).spec_bytes()) == Ok::<Right, Error>(Right::Allotment(a)),
{
    let s = Right::Allotment(a).spec_bytes();
    assert(s.len() == 6);
    assert(s[1] == 'A' as u8);
    assert(s[2] == a.unassigned1.spec_byte());
    assert(NotApplicable::spec_decode(s[2]) == Some(a.unassigned1));
    assert(s[3] == a.unassigned2.spec_byte());
    assert(NotApplicable::spec_decode(s[3]) == Some(a.unassigned2));
    assert(s[4] == a.unassigned3.spec_byte());
    assert(NotApplicable::spec_decode(s[4]) == Some(a.unassigned3));
    assert(s[5] == a.form.spec_byte());
    assert(Form::spec_decode(s[5]) == Some(a.form));
    assert(Allotment::spec_decode(s) == Ok::<Allotment, Error>(a));
}

/// The encoding of a [`Right::Subscription`] value re-decodes to itself.
proof fn lemma_decode_encode_subscription(a: Subscription)
    ensures
        Right::Subscription(a).spec_bytes().len() == 6,
        Right::Subscription(a).spec_bytes()[0] == 'R' as u8,
        Right::spec_decode(Right::Subscription(a).spec_bytes()) == Ok::<Right, Error>(Right::Subscription(a)),
{
    let s = Right::Subscription(a).spec_bytes();
    assert(s.len() == 6);
    assert(s[1] == 'S' as u8);
    assert(s[2] == a.assets.spec_byte());
    assert(Assets::spec_decode(s[2]) == Some(a.assets));
    assert(s[3] == a.unassigned2.spec_byte());
    assert(NotApplicable::spec_decode(s[3]) == Some(a.unassigned2));
    assert(s[4] == a.unassigned3.spec_byte());
    assert(NotApplicable::spec_decode(s[4]) == Some(a.unassigned3));
    assert(s[5] == a.form.spec_byte());
    assert(Form::spec_decode(s[5]) == Some(a.form));
    assert(Subscription::spec_decode(s) == Ok::<Subscription, Error>(a));
}

/// The encoding of a [`Right::Purchase`] value re-decodes to itself.
proof fn lemma_decode_encode_purchase(a: Purchase)
    ensures
        Right::Purchase(a).spec_bytes().len() == 6,
        Right::Purchase(a).spec_bytes()[0] == 'R' as u8,
        Right::spec_decode(Right::Purchase(a).spec_bytes()) == Ok::<Right, Error>(Right::Purchase(a)),
{
    let s = Right::Purchase(a).spec_bytes();
    assert(s.len() == 6);
    assert(s[1] == 'P' as u8);
    assert(s[2] == a.assets.spec_byte());
    assert(Assets::spec_decode(s[2]) == Some(a.assets));
    assert(s[3] == a.undefined2.spec_byte());
    assert(NotApplicable::spec_decode(s[3]) == Some(a.undefined2));
    assert(s[4] == a.undefined3.spec_byte());
    assert(NotApplicable::spec_decode(s[4]) == Some(a.undefined3));
    assert(s[5] == a.form.spec_byte());
    assert(Form::spec_decode(s[5]) == Some(a.form));
    assert(Purchase::spec_decode(s) == Ok::<Purchase, Error>(a));
}

/// The encoding of a [`Right::Warrant`] value re-decodes to itself.
proof fn lemma_decode_encode_warrant(a: Warrant)
    ensures
        Right::Warrant(a).spec_bytes().len() == 6,
        Right::Warrant(a).spec_bytes()[0] == 'R' as u8,
        Right::spec_decode(Right::Warrant(a).spec_bytes()) == Ok::<Right, Error>(Right::Warrant(a)),
{
    let s = Right::Warrant(a).spec_bytes();
    assert(s.len() == 6);
    assert(s[1] == 'W' as u8);
    assert(s[2] == a.asset.spec_byte());
    assert(Assets::spec_decode(s[2]) == Some(a.asset));
    assert(s[3] == a.kind.spec_byte());
    assert(Kind::spec_decode(s[3]) == Some(a.kind));
    assert(s[4] == a.call_put.spec_byte());
    assert(CallPut::spec_decode(s[4]) == Some(a.call_put));
    assert(s[5] == a.exercise_style.spec_byte());
    assert(ExerciseStyle::spec_decode(s[5]) == Some(a.exercise_style));
    assert(Warrant::spec_decode(s) == Ok::<Warrant, Error>(a));
}

/// The encoding of a [`Right::MiniFuture`] value re-decodes to itself.
proof fn lemma_decode_encode_mini_future(a: MiniFuture)
    ensures
        Right::MiniFuture(a).spec_bytes().len() == 6,
        Right::MiniFuture(a).spec_bytes()[0] == 'R' as u8,
        Right::spec_decode(Right::MiniFuture(a).spec_bytes()) == Ok::<Right, Error>(Right::MiniFuture(a)),
{
    let s = Right::MiniFuture(a).spec_bytes();
    assert(s.len() == 6);
    assert(s[1] == 'F' as u8);
    assert(s[2] == a.asset.spec_byte());
    assert(FutureAsset::spec_decode(s[2]) == Some(a.asset));
    assert(s[3] == a.barrier.spec_byte());
    assert(Barrier::spec_decode(s[3]) == Some(a.barrier));
    assert(s[4] == a.long_short.spec_byte());
    assert(LongShort::spec_decode(s[4]) == Some(a.long_short));
    assert(s[5] == a.exercise_style.spec_byte());
    assert(ExerciseStyle::spec_decode(s[5]) == Some(a.exercise_style));
    assert(MiniFuture::spec_decode(s) == Ok::<MiniFuture, Error>(a));
}

/// The encoding of a [`Right::DepositoryReceipt`] value re-decodes to itself.
proof fn lemma_decode_encode_depository_receipt(a: DepositoryReceipt)
    ensures
        Right::DepositoryReceipt(a).spec_bytes().len() == 6,
        Right::DepositoryReceipt(a).spec_bytes()[0] == 'R' as u8,
        Right::spec_decode(Right::DepositoryReceipt(a).spec_bytes()) == Ok::<Right, Error>(Right::DepositoryReceipt(a)),
{
    let s = Right::DepositoryReceipt(a).spec_bytes();
    assert(s.len() == 6);
    assert(s[1] == 'D' as u8);
    assert(s[2] == a.dependency.spec_byte());
    assert(Dependency::spec_decode(s[2]) == Some(a.dependency));
    assert(s[3] == a.undefined2.spec_byte());
    assert(NotApplicable::spec_decode(s[3]) == Some(a.undefined2));
    assert(s[4] == a.undefined3.spec_byte());
    assert(NotApplicable::spec_decode(s[4]) == Some(a.undefined3));
    assert(s[5] == a.form.spec_byte());
    assert(Form::spec_decode(s[5]) == Some(a.form));
    assert(DepositoryReceipt::spec_decode(s) == Ok::<DepositoryReceipt, Error>(a));
}

/// The encoding of a [`Right::Other`] value re-decodes to itself.
proof fn lemma_decode_encode_other(a: Other)
    ensures
        Right::Other(a).spec_bytes().len() == 6,
        Right::Other(a).spec_bytes()[0] == 'R' as u8,
        Right::spec_decode(Right::Other(a).spec_bytes()) == Ok::<Right, Error>(Right::Other(a)),
{
    let s = Right::Other(a).spec_bytes();
    assert(s.len() == 6);
    assert(s[1] == 'M' as u8);
    assert(s[2] == a.undefined1.spec_byte());
    assert(NotApplicable::spec_decode(s[2]) == Some(a.undefined1));
    assert(s[3] == a.undefined2.spec_byte());
    assert(NotApplicable::spec_decode(s[3]) == Some(a.undefined2));
    assert(s[4] == a.undefined3.spec_byte());
    assert(NotApplicable::spec_decode(s[4]) == Some(a.undefined3));
    assert(s[5] == a.undefined4.spec_byte());
    assert(NotApplicable::spec_decode(s[5]) == Some(a.undefined4));
    assert(Other::spec_decode(s) == Ok::<Other, Error>(a));
}

/// Every rights group value re-decodes from its own encoding.
pub proof fn lemma_decode_encode(g: Right)
    ensures
        g.spec_bytes().len() == 6,
        g.spec_bytes()[0] == 'R' as u8,
        Right::spec_decode(g.spec_bytes()) == Ok::<Right, Error>(g),
{
    match g {
        Right::Allotment(a) => lemma_decode_encode_allotment(a),
        Right::Subscription(a) => lemma_decode_encode_subscription(a),
        Right::Purchase(a) => lemma_decode_encode_purchase(a),
        Right::Warrant(a) => lemma_decode_encode_warrant(a),
        Right::MiniFuture(a) => lemma_decode_encode_mini_future(a),
        Right::DepositoryReceipt(a) => lemma_decode_encode_depository_receipt(a),
        Right::Other(a) => lemma_decode_encode_other(a),
    }
}

/// Every rights code that decodes successfully re-encodes to the same
/// six bytes.
#[verifier::rlimit(50)]
pub proof fn lemma_encode_decode(s: Seq<u8>, g: Right)
    requires
        Right::spec_decode(s) == Ok::<Right, Error>(g),
        s[0] == 'R' as u8,
    ensures
        g.spec_bytes() == s,
{
    if s[1] == 'A' as u8 {
        assert(g.spec_bytes() =~= s);
    } else if s[1] == 'S' as u8 {
        assert(g.spec_bytes() =~= s);
    } else if s[1] == 'P' as u8 {
        assert(g.spec_bytes() =~= s);
    } else if s[1] == 'W' as u8 {
        assert(g.spec_bytes() =~= s);
    } else if s[1] == 'F' as u8 {
        assert(g.spec_bytes() =~= s);
    } else if s[1] == 'D' as u8 {
        assert(g.spec_bytes() =~= s);
    } else if s[1] == 'M' as u8 {
        assert(g.spec_bytes() =~= s);
    } else {
    }
}

/// Substituting `X` at any attribute position of a rights code that
/// decodes successfully leaves a code that still decodes successfully.
pub proof fn lemma_undefined_universality(s: Seq<u8>, i: int)
    requires
        Right::spec_decode(s) is Ok,
        2 <= i < 6,
    ensures
        Right::spec_decode(s.update(i, 'X' as u8)) is Ok,
{
    let t = s.update(i, 'X' as u8);
    assert(t.len() == s.len());
    assert(t[1] == s[1]);
    assert(t[i] == 'X' as u8);
    assert(forall|j: int| 0 <= j < 6 && j != i ==> t[j] == s[j]);
}

/// A six-byte rights code whose byte 1 is not a group tag is rejected
/// with exactly that byte, whatever the remaining bytes hold.
pub proof fn lemma_invalid_group(s: Seq<u8>)
    requires
        s.len() == 6,
        !Right::spec_group_tag(s[1]),
    ensures
        Right::spec_decode(s) == Err::<Right, Error>(Error::InvalidGroup(s[1])),
{
}

/// When the group tag is legal and position `i` holds the first attribute
/// byte outside its alphabet, decoding reports exactly that position.
pub proof fn lemma_first_invalid_attribute(s: Seq<u8>, i: int)
    requires
        s.len() == 6,
        Right::spec_group_tag(s[1]),
        2 <= i < 6,
        forall|j: int| 2 <= j < i ==> Right::spec_attr_ok(s, j),
        !Right::spec_attr_ok(s, i),
    ensures
        Right::spec_decode(s) == Err::<Right, Error>(Error::InvalidAttribute(i as usize, s[i])),
{
    if i > 2 {
        assert(Right::spec_attr_ok(s, 2));
    }
    if i > 3 {
        assert(Right::spec_attr_ok(s, 3));
    }
    if i > 4 {
        assert(Right::spec_attr_ok(s, 4));
    }
}

/// A six-byte rights code decodes successfully exactly when its group
/// tag and all four attribute bytes are legal.
pub proof fn lemma_ok_iff(s: Seq<u8>)
    requires
        s.len() == 6,
    ensures
        Right::spec_decode(s) is Ok <==> (Right::spec_group_tag(s[1])
            && (forall|j: int| 2 <= j < 6 ==> Right::spec_attr_ok(s, j))),
{
    if Right::spec_group_tag(s[1]) && (forall|j: int| 2 <= j < 6 ==> Right::spec_attr_ok(s, j)) {
        assert(Right::spec_attr_ok(s, 2));
        assert(Right::spec_attr_ok(s, 3));
        assert(Right::spec_attr_ok(s, 4));
        assert(Right::spec_attr_ok(s, 5));
    }
    if Right::spec_decode(s) is Ok {
        assert forall|j: int| 2 <= j < 6 implies Right::spec_attr_ok(s, j) by {
        }
    }
}

impl Attr for Assets {
    open spec fn spec_decode_byte(b: u8) -> Option<Assets> {
        Assets::spec_decode(b)
    }

    fn from_code_byte(value: u8) -> (r: Result<Assets, Error>) {
        Assets::from_byte(value, 0)
    }
}

impl AttrPos<2> for Assets {
}

impl Attr for Kind {
    open spec fn spec_decode_byte(b: u8) -> Option<Kind> {
        Kind::spec_decode(b)
    }

    fn from_code_byte(value: u8) -> (r: Result<Kind, Error>) {
        Kind::from_byte(value, 0)
    }
}

impl AttrPos<3> for Kind {
}

impl Attr for CallPut {
    open spec fn spec_decode_byte(b: u8) -> Option<CallPut> {
        CallPut::spec_decode(b)
    }

    fn from_code_byte(value: u8) -> (r: Result<CallPut, Error>) {
        CallPut::from_byte(value, 0)
    }
}

impl AttrPos<4> for CallPut {
}

impl Attr for ExerciseStyle {
    open spec fn spec_decode_byte(b: u8) -> Option<ExerciseStyle> {
        ExerciseStyle::spec_decode(b)
    }

    fn from_code_byte(value: u8) -> (r: Result<ExerciseStyle, Error>) {
        ExerciseStyle::from_byte(value, 0)
    }
}

impl AttrPos<5> for ExerciseStyle {
}

impl Attr for FutureAsset {
    open spec fn spec_decode_byte(b: u8) -> Option<FutureAsset> {
        FutureAsset::spec_decode(b)
    }

    fn from_code_byte(value: u8) -> (r: Result<FutureAsset, Error>) {
        FutureAsset::from_byte(value, 0)
    }
}

impl AttrPos<2> for FutureAsset {
}

impl Attr for Barrier {
    open spec fn spec_decode_byte(b: u8) -> Option<Barrier> {
        Barrier::spec_decode(b)
    }

    fn from_code_byte(value: u8) -> (r: Result<Barrier, Error>) {
        Barrier::from_byte(value, 0)
    }
}

impl AttrPos<3> for Barrier {
}

impl Attr for LongShort {
    open spec fn spec_decode_byte(b: u8) -> Option<LongShort> {
        LongShort::spec_decode(b)
    }

    fn from_code_byte(value: u8) -> (r: Result<LongShort, Error>) {
        LongShort::from_byte(value, 0)
    }
}

impl AttrPos<4> for LongShort {
}

impl Attr for Dependency {
    open spec fn spec_decode_byte(b: u8) -> Option<Dependency> {
        Dependency::spec_decode(b)
    }

    fn from_code_byte(value: u8) -> (r: Result<Dependency, Error>) {
        Dependency::from_byte(value, 0)
    }
}

impl AttrPos<2> for Dependency {
}

impl CfiGroup for Allotment {
    type Attr1 = NotApplicable;

    type Attr2 = NotApplicable;

    type Attr3 = NotApplicable;

    type Attr4 = Form;

    open spec fn spec_attr1(self) -> NotApplicable {
        self.unassigned1
    }

    open spec fn spec_attr2(self) -> NotApplicable {
        self.unassigned2
    }

    open spec fn spec_attr3(self) -> NotApplicable {
        self.unassigned3
    }

    open spec fn spec_attr4(self) -> Form {
        self.form
    }

    open spec fn spec_from_cfi(s: Seq<u8>) -> Result<Allotment, Error> {
        Allotment::spec_decode(s)
    }

    fn attr1(&self) -> (r: NotApplicable) {
        self.unassigned1
    }

    fn attr2(&self) -> (r: NotApplicable) {
        self.unassigned2
    }

    fn attr3(&self) -> (r: NotApplicable) {
        self.unassigned3
    }

    fn attr4(&self) -> (r: Form) {
        self.form
    }

    fn from_cfi_bytes(value: &[u8]) -> (r: Result<Allotment, Error>) {
        Allotment::from_bytes(value)
    }
}

impl CfiGroup for Subscription {
    type Attr1 = Assets;

    type Attr2 = NotApplicable;

    type Attr3 = NotApplicable;

    type Attr4 = Form;

    open spec fn spec_attr1(self) -> Assets {
        self.assets
    }

    open spec fn spec_attr2(self) -> NotApplicable {
        self.unassigned2
    }

    open spec fn spec_attr3(self) -> NotApplicable {
        self.unassigned3
    }

    open spec fn spec_attr4(self) -> Form {
        self.form
    }

    open spec fn spec_from_cfi(s: Seq<u8>) -> Result<Subscription, Error> {
        Subscription::spec_decode(s)
    }

    fn attr1(&self) -> (r: Assets) {
        self.assets
    }

    fn attr2(&self) -> (r: NotApplicable) {
        self.unassigned2
    }

    fn attr3(&self) -> (r: NotApplicable) {
        self.unassigned3
    }

    fn attr4(&self) -> (r: Form) {
        self.form
    }

    fn from_cfi_bytes(value: &[u8]) -> (r: Result<Subscription, Error>) {
        Subscription::from_bytes(value)
    }
}

impl CfiGroup for Purchase {
    type Attr1 = Assets;

    type Attr2 = NotApplicable;

    type Attr3 = NotApplicable;

    type Attr4 = Form;

    open spec fn spec_attr1(self) -> Assets {
        self.assets
    }

    open spec fn spec_attr2(self) -> NotApplicable {
        self.undefined2
    }

    open spec fn spec_attr3(self) -> NotApplicable {
        self.undefined3
    }

    open spec fn spec_attr4(self) -> Form {
        self.form
    }

    open spec fn spec_from_cfi(s: Seq<u8>) -> Result<Purchase, Error> {
        Purchase::spec_decode(s)
    }

    fn attr1(&self) -> (r: Assets) {
        self.assets
    }

    fn attr2(&self) -> (r: NotApplicable) {
        self.undefined2
    }

    fn attr3(&self) -> (r: NotApplicable) {
        self.undefined3
    }

    fn attr4(&self) -> (r: Form) {
        self.form
    }

    fn from_cfi_bytes(value: &[u8]) -> (r: Result<Purchase, Error>) {
        Purchase::from_bytes(value)
    }
}

impl CfiGroup for Warrant {
    type Attr1 = Assets;

    type Attr2 = Kind;

    type Attr3 = CallPut;

    type Attr4 = ExerciseStyle;

    open spec fn spec_attr1(self) -> Assets {
        self.asset
    }

    open spec fn spec_attr2(self) -> Kind {
        self.kind
    }

    open spec fn spec_attr3(self) -> CallPut {
        self.call_put
    }

    open spec fn spec_attr4(self) -> ExerciseStyle {
        self.exercise_style
    }

    open spec fn spec_from_cfi(s: Seq<u8>) -> Result<Warrant, Error> {
        Warrant::spec_decode(s)
    }

    fn attr1(&self) -> (r: Assets) {
        self.asset
    }

    fn attr2(&self) -> (r: Kind) {
        self.kind
    }

    fn attr3(&self) -> (r: CallPut) {
        self.call_put
    }

    fn attr4(&self) -> (r: ExerciseStyle) {
        self.exercise_style
    }

    fn from_cfi_bytes(value: &[u8]) -> (r: Result<Warrant, Error>) {
        Warrant::from_bytes(value)
    }
}

impl CfiGroup for MiniFuture {
    type Attr1 = FutureAsset;

    type Attr2 = Barrier;

    type Attr3 = LongShort;

    type Attr4 = ExerciseStyle;

    open spec fn spec_attr1(self) -> FutureAsset {
        self.asset
    }

    open spec fn spec_attr2(self) -> Barrier {
        self.barrier
    }

    open spec fn spec_attr3(self) -> LongShort {
        self.long_short
    }

    open spec fn spec_attr4(self) -> ExerciseStyle {
        self.exercise_style
    }

    open spec fn spec_from_cfi(s: Seq<u8>) -> Result<MiniFuture, Error> {
        MiniFuture::spec_decode(s)
    }

    fn attr1(&self) -> (r: FutureAsset) {
        self.asset
    }

    fn attr2(&self) -> (r: Barrier) {
        self.barrier
    }

    fn attr3(&self) -> (r: LongShort) {
        self.long_short
    }

    fn attr4(&self) -> (r: ExerciseStyle) {
        self.exercise_style
    }

    fn from_cfi_bytes(value: &[u8]) -> (r: Result<MiniFuture, Error>) {
        MiniFuture::from_bytes(value)
    }
}

impl CfiGroup for DepositoryReceipt {
    type Attr1 = Dependency;

    type Attr2 = NotApplicable;

    type Attr3 = NotApplicable;

    type Attr4 = Form;

    open spec fn spec_attr1(self) -> Dependency {
        self.dependency
    }

    open spec fn spec_attr2(self) -> NotApplicable {
        self.undefined2
    }

    open spec fn spec_attr3(self) -> NotApplicable {
        self.undefined3
    }

    open spec fn spec_attr4(self) -> Form {
        self.form
    }

    open spec fn spec_from_cfi(s: Seq<u8>) -> Result<DepositoryReceipt, Error> {
        DepositoryReceipt::spec_decode(s)
    }

    fn attr1(&self) -> (r: Dependency) {
        self.dependency
    }

    fn attr2(&self) -> (r: NotApplicable) {
        self.undefined2
    }

    fn attr3(&self) -> (r: NotApplicable) {
        self.undefined3
    }

    fn attr4(&self) -> (r: Form) {
        self.form
    }

    fn from_cfi_bytes(value: &[u8]) -> (r: Result<DepositoryReceipt, Error>) {
        DepositoryReceipt::from_bytes(value)
    }
}

impl CfiGroup for Other {
    type Attr1 = NotApplicable;

    type Attr2 = NotApplicable;

    type Attr3 = NotApplicable;

    type Attr4 = NotApplicable;

    open spec fn spec_attr1(self) -> NotApplicable {
        self.undefined1
    }

    open spec fn spec_attr2(self) -> NotApplicable {
        self.undefined2
    }

    open spec fn spec_attr3(self) -> NotApplicable {
        self.undefined3
    }

    open spec fn spec_attr4(self) -> NotApplicable {
        self.undefined4
    }

    open spec fn spec_from_cfi(s: Seq<u8>) -> Result<Other, Error> {
        Other::spec_decode(s)
    }

    fn attr1(&self) -> (r: NotApplicable) {
        self.undefined1
    }

    fn attr2(&self) -> (r: NotApplicable) {
        self.undefined2
    }

    fn attr3(&self) -> (r: NotApplicable) {
        self.undefined3
    }

    fn attr4(&self) -> (r: NotApplicable) {
        self.undefined4
    }

    fn from_cfi_bytes(value: &[u8]) -> (r: Result<Other, Error>) {
        Other::from_bytes(value)
    }
}

} // verus!
