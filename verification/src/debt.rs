//! Debt instrument category support.

use vstd::prelude::*;

use crate::Attr;
use crate::AttrPos;
use crate::CfiGroup;
use crate::Error;
use crate::Form;
use crate::NotApplicable;

verus! {

/// Financial instruments evidencing monies owed by the issuer to the holder on terms as
/// specified.
#[derive(Clone, Copy, Debug, Eq, Hash, Ord, PartialEq, PartialOrd, Structural)]
pub enum Debt {
    /// `B`: `B`: Bonds.
    Bond(Bond),
    /// `C`: `C`: Convertible bonds.
    Convertible(Convertible),
    /// `W`: `W`: Bonds with warrants attached.
    WarrantAttached(WarrantAttached),
    /// `T`: `T`: Medium-term notes.
    MediumTerm(MediumTerm),
    /// `Y`: `Y`: Money market instruments.
    MoneyMarket(MoneyMarket),
    /// `S`: `S`: Structured products (with capital protection).
    ProtectedStructured(ProtectedStructured),
    /// `E`: `E`: Structured products (without capital protection).
    UnprotectedStructured(UnprotectedStructured),
    /// `G`: `G`: Mortgage-backed securities (MBS).
    MortgageBacked(MortgageBacked),
    /// `A`: `A`: Asset-backed securities (ABS).
    AssetBacked(AssetBacked),
    /// `N`: `N`: Municipal bonds.
    Municipal(Municipal),
    /// `D`: `D`: Depository receipts on debt instruments.
    Depository(Depository),
    /// `M`: `M`: Others (miscellaneous).
    Other(Other),
}

impl Debt {
    /// Whether `b` is one of this category's group tags.
    pub open spec fn spec_group_tag(b: u8) -> bool {
        b == 'B' as u8
            || b == 'C' as u8
            || b == 'W' as u8
            || b == 'T' as u8
            || b == 'Y' as u8
            || b == 'S' as u8
            || b == 'E' as u8
            || b == 'G' as u8
            || b == 'A' as u8
            || b == 'N' as u8
            || b == 'D' as u8
            || b == 'M' as u8
    }

    /// The full six-byte encoding of this group, category tag included.
    pub open spec fn spec_bytes(self) -> Seq<u8> {
        match self {
            Debt::Bond(a) => seq!['D' as u8, 'B' as u8] + a.spec_bytes(),
            Debt::Convertible(a) => seq!['D' as u8, 'C' as u8] + a.spec_bytes(),
            Debt::WarrantAttached(a) => seq!['D' as u8, 'W' as u8] + a.spec_bytes(),
            Debt::MediumTerm(a) => seq!['D' as u8, 'T' as u8] + a.spec_bytes(),
            Debt::MoneyMarket(a) => seq!['D' as u8, 'Y' as u8] + a.spec_bytes(),
            Debt::ProtectedStructured(a) => seq!['D' as u8, 'S' as u8] + a.spec_bytes(),
            Debt::UnprotectedStructured(a) => seq!['D' as u8, 'E' as u8] + a.spec_bytes(),
            Debt::MortgageBacked(a) => seq!['D' as u8, 'G' as u8] + a.spec_bytes(),
            Debt::AssetBacked(a) => seq!['D' as u8, 'A' as u8] + a.spec_bytes(),
            Debt::Municipal(a) => seq!['D' as u8, 'N' as u8] + a.spec_bytes(),
            Debt::Depository(a) => seq!['D' as u8, 'D' as u8] + a.spec_bytes(),
            Debt::Other(a) => seq!['D' as u8, 'M' as u8] + a.spec_bytes(),
        }
    }

    /// Whether byte `j` of `s` lies in the alphabet that this category's
    /// schema assigns to position `j`, for the group selected by byte 1.
    pub open spec fn spec_attr_ok(s: Seq<u8>, j: int) -> bool
        recommends
            s.len() == 6,
            2 <= j < 6,
    {
        if s[1] == 'B' as u8 {
            if j == 2 {
                InterestInKindOrCash::spec_decode(s[2]) is Some
            } else if j == 3 {
                Guarantee::spec_decode(s[3]) is Some
            } else if j == 4 {
                Redemption::spec_decode(s[4]) is Some
            } else {
                Form::spec_decode(s[5]) is Some
            }
        } else if s[1] == 'C' as u8 {
            if j == 2 {
                InterestInKind::spec_decode(s[2]) is Some
            } else if j == 3 {
                Guarantee::spec_decode(s[3]) is Some
            } else if j == 4 {
                Redemption::spec_decode(s[4]) is Some
            } else {
                Form::spec_decode(s[5]) is Some
            }
        } else if s[1] == 'W' as u8 {
            if j == 2 {
                InterestInKind::spec_decode(s[2]) is Some
            } else if j == 3 {
                Guarantee::spec_decode(s[3]) is Some
            } else if j == 4 {
                Redemption::spec_decode(s[4]) is Some
            } else {
                Form::spec_decode(s[5]) is Some
            }
        } else if s[1] == 'T' as u8 {
            if j == 2 {
                InterestInKind::spec_decode(s[2]) is Some
            } else if j == 3 {
                Guarantee::spec_decode(s[3]) is Some
            } else if j == 4 {
                Redemption::spec_decode(s[4]) is Some
            } else {
                Form::spec_decode(s[5]) is Some
            }
        } else if s[1] == 'Y' as u8 {
            if j == 2 {
                InterestInKind::spec_decode(s[2]) is Some
            } else if j == 3 {
                Guarantee::spec_decode(s[3]) is Some
            } else if j == 4 {
                NotApplicable::spec_decode(s[4]) is Some
            } else {
                Form::spec_decode(s[5]) is Some
            }
        } else if s[1] == 'S' as u8 {
            if j == 2 {
                ProtectedKind::spec_decode(s[2]) is Some
            } else if j == 3 {
                Distribution::spec_decode(s[3]) is Some
            } else if j == 4 {
                ProtectedRepayment::spec_decode(s[4]) is Some
            } else {
                Underlying::spec_decode(s[5]) is Some
            }
        } else if s[1] == 'E' as u8 {
            if j == 2 {
                UnprotectedKind::spec_decode(s[2]) is Some
            } else if j == 3 {
                Distribution::spec_decode(s[3]) is Some
            } else if j == 4 {
                UnprotectedRepayment::spec_decode(s[4]) is Some
            } else {
                Underlying::spec_decode(s[5]) is Some
            }
        } else if s[1] == 'G' as u8 {
            if j == 2 {
                Interest::spec_decode(s[2]) is Some
            } else if j == 3 {
                Guarantee::spec_decode(s[3]) is Some
            } else if j == 4 {
                Redemption::spec_decode(s[4]) is Some
            } else {
                Form::spec_decode(s[5]) is Some
            }
        } else if s[1] == 'A' as u8 {
            if j == 2 {
                Interest::spec_decode(s[2]) is Some
            } else if j == 3 {
                Guarantee::spec_decode(s[3]) is Some
            } else if j == 4 {
                Redemption::spec_decode(s[4]) is Some
            } else {
                Form::spec_decode(s[5]) is Some
            }
        } else if s[1] == 'N' as u8 {
            if j == 2 {
                Interest::spec_decode(s[2]) is Some
            } else if j == 3 {
                Guarantee::spec_decode(s[3]) is Some
            } else if j == 4 {
                Redemption::spec_decode(s[4]) is Some
            } else {
                Form::spec_decode(s[5]) is Some
            }
        } else if s[1] == 'D' as u8 {
            if j == 2 {
                Dependency::spec_decode(s[2]) is Some
            } else if j == 3 {
                InterestOrCash::spec_decode(s[3]) is Some
            } else if j == 4 {
                Guarantee::spec_decode(s[4]) is Some
            } else {
                Redemption::spec_decode(s[5]) is Some
            }
        } else if s[1] == 'M' as u8 {
            if j == 2 {
                OtherKind::spec_decode(s[2]) is Some
            } else if j == 3 {
                NotApplicable::spec_decode(s[3]) is Some
            } else if j == 4 {
                NotApplicable::spec_decode(s[4]) is Some
            } else {
                Form::spec_decode(s[5]) is Some
            }
        } else {
            true
        }
    }

    /// The group encoded by the six-byte code `s`, selected by byte 1, or
    /// the error for the first invalid position at or after byte 1.
    pub open spec fn spec_decode(s: Seq<u8>) -> Result<Debt, Error> {
        if s.len() != 6 {
            Err(Error::InvalidLength)
        } else if s[1] == 'B' as u8 {
            match Bond::spec_decode(s) {
                Ok(a) => Ok(Debt::Bond(a)),
                Err(e) => Err(e),
            }
        } else if s[1] == 'C' as u8 {
            match Convertible::spec_decode(s) {
                Ok(a) => Ok(Debt::Convertible(a)),
                Err(e) => Err(e),
            }
        } else if s[1] == 'W' as u8 {
            match WarrantAttached::spec_decode(s) {
                Ok(a) => Ok(Debt::WarrantAttached(a)),
                Err(e) => Err(e),
            }
        } else if s[1] == 'T' as u8 {
            match MediumTerm::spec_decode(s) {
                Ok(a) => Ok(Debt::MediumTerm(a)),
                Err(e) => Err(e),
            }
        } else if s[1] == 'Y' as u8 {
            match MoneyMarket::spec_decode(s) {
                Ok(a) => Ok(Debt::MoneyMarket(a)),
                Err(e) => Err(e),
            }
        } else if s[1] == 'S' as u8 {
            match ProtectedStructured::spec_decode(s) {
                Ok(a) => Ok(Debt::ProtectedStructured(a)),
                Err(e) => Err(e),
            }
        } else if s[1] == 'E' as u8 {
            match UnprotectedStructured::spec_decode(s) {
                Ok(a) => Ok(Debt::UnprotectedStructured(a)),
                Err(e) => Err(e),
            }
        } else if s[1] == 'G' as u8 {
            match MortgageBacked::spec_decode(s) {
                Ok(a) => Ok(Debt::MortgageBacked(a)),
                Err(e) => Err(e),
            }
        } else if s[1] == 'A' as u8 {
            match AssetBacked::spec_decode(s) {
                Ok(a) => Ok(Debt::AssetBacked(a)),
                Err(e) => Err(e),
            }
        } else if s[1] == 'N' as u8 {
            match Municipal::spec_decode(s) {
                Ok(a) => Ok(Debt::Municipal(a)),
                Err(e) => Err(e),
            }
        } else if s[1] == 'D' as u8 {
            match Depository::spec_decode(s) {
                Ok(a) => Ok(Debt::Depository(a)),
                Err(e) => Err(e),
            }
        } else if s[1] == 'M' as u8 {
            match Other::spec_decode(s) {
                Ok(a) => Ok(Debt::Other(a)),
                Err(e) => Err(e),
            }
        } else {
            Err(Error::InvalidGroup(s[1]))
        }
    }

    /// Decode the group and attribute portion of a six-byte code of this
    /// category, failing on the first invalid position.
    pub fn from_bytes(src: &[u8]) -> (r: Result<Debt, Error>)
        ensures
            r == Debt::spec_decode(src@),
    {
        if src.len() != 6 {
            return Err(Error::InvalidLength);
        }
        if src[1] == 'B' as u8 {
            match Bond::from_bytes(src) {
                Ok(a) => Ok(Debt::Bond(a)),
                Err(e) => Err(e),
            }
        } else if src[1] == 'C' as u8 {
            match Convertible::from_bytes(src) {
                Ok(a) => Ok(Debt::Convertible(a)),
                Err(e) => Err(e),
            }
        } else if src[1] == 'W' as u8 {
            match WarrantAttached::from_bytes(src) {
                Ok(a) => Ok(Debt::WarrantAttached(a)),
                Err(e) => Err(e),
            }
        } else if src[1] == 'T' as u8 {
            match MediumTerm::from_bytes(src) {
                Ok(a) => Ok(Debt::MediumTerm(a)),
                Err(e) => Err(e),
            }
        } else if src[1] == 'Y' as u8 {
            match MoneyMarket::from_bytes(src) {
                Ok(a) => Ok(Debt::MoneyMarket(a)),
                Err(e) => Err(e),
            }
        } else if src[1] == 'S' as u8 {
            match ProtectedStructured::from_bytes(src) {
                Ok(a) => Ok(Debt::ProtectedStructured(a)),
                Err(e) => Err(e),
            }
        } else if src[1] == 'E' as u8 {
            match UnprotectedStructured::from_bytes(src) {
                Ok(a) => Ok(Debt::UnprotectedStructured(a)),
                Err(e) => Err(e),
            }
        } else if src[1] == 'G' as u8 {
            match MortgageBacked::from_bytes(src) {
                Ok(a) => Ok(Debt::MortgageBacked(a)),
                Err(e) => Err(e),
            }
        } else if src[1] == 'A' as u8 {
            match AssetBacked::from_bytes(src) {
                Ok(a) => Ok(Debt::AssetBacked(a)),
                Err(e) => Err(e),
            }
        } else if src[1] == 'N' as u8 {
            match Municipal::from_bytes(src) {
                Ok(a) => Ok(Debt::Municipal(a)),
                Err(e) => Err(e),
            }
        } else if src[1] == 'D' as u8 {
            match Depository::from_bytes(src) {
                Ok(a) => Ok(Debt::Depository(a)),
                Err(e) => Err(e),
            }
        } else if src[1] == 'M' as u8 {
            match Other::from_bytes(src) {
                Ok(a) => Ok(Debt::Other(a)),
                Err(e) => Err(e),
            }
        } else {
            Err(Error::InvalidGroup(src[1]))
        }
    }

    /// The full six-byte encoding of this group, category tag included.
    pub fn to_bytes(&self) -> (r: [u8; 6])
        ensures
            r@ == self.spec_bytes(),
    {
        match self {
            Debt::Bond(a) => {
                let t = a.to_bytes();
                let r = ['D' as u8, 'B' as u8, t[0], t[1], t[2], t[3]];
                proof {
                    assert(r@ =~= self.spec_bytes());
                }
                r
            },
            Debt::Convertible(a) => {
                let t = a.to_bytes();
                let r = ['D' as u8, 'C' as u8, t[0], t[1], t[2], t[3]];
                proof {
                    assert(r@ =~= self.spec_bytes());
                }
                r
            },
            Debt::WarrantAttached(a) => {
                let t = a.to_bytes();
                let r = ['D' as u8, 'W' as u8, t[0], t[1], t[2], t[3]];
                proof {
                    assert(r@ =~= self.spec_bytes());
                }
                r
            },
            Debt::MediumTerm(a) => {
                let t = a.to_bytes();
                let r = ['D' as u8, 'T' as u8, t[0], t[1], t[2], t[3]];
                proof {
                    assert(r@ =~= self.spec_bytes());
                }
                r
            },
            Debt::MoneyMarket(a) => {
                let t = a.to_bytes();
                let r = ['D' as u8, 'Y' as u8, t[0], t[1], t[2], t[3]];
                proof {
                    assert(r@ =~= self.spec_bytes());
                }
                r
            },
            Debt::ProtectedStructured(a) => {
                let t = a.to_bytes();
                let r = ['D' as u8, 'S' as u8, t[0], t[1], t[2], t[3]];
                proof {
                    assert(r@ =~= self.spec_bytes());
                }
                r
            },
            Debt::UnprotectedStructured(a) => {
                let t = a.to_bytes();
                let r = ['D' as u8, 'E' as u8, t[0], t[1], t[2], t[3]];
                proof {
                    assert(r@ =~= self.spec_bytes());
                }
                r
            },
            Debt::MortgageBacked(a) => {
                let t = a.to_bytes();
                let r = ['D' as u8, 'G' as u8, t[0], t[1], t[2], t[3]];
                proof {
                    assert(r@ =~= self.spec_bytes());
                }
                r
            },
            Debt::AssetBacked(a) => {
                let t = a.to_bytes();
                let r = ['D' as u8, 'A' as u8, t[0], t[1], t[2], t[3]];
                proof {
                    assert(r@ =~= self.spec_bytes());
                }
                r
            },
            Debt::Municipal(a) => {
                let t = a.to_bytes();
                let r = ['D' as u8, 'N' as u8, t[0], t[1], t[2], t[3]];
                proof {
                    assert(r@ =~= self.spec_bytes());
                }
                r
            },
            Debt::Depository(a) => {
                let t = a.to_bytes();
                let r = ['D' as u8, 'D' as u8, t[0], t[1], t[2], t[3]];
                proof {
                    assert(r@ =~= self.spec_bytes());
                }
                r
            },
            Debt::Other(a) => {
                let t = a.to_bytes();
                let r = ['D' as u8, 'M' as u8, t[0], t[1], t[2], t[3]];
                proof {
                    assert(r@ =~= self.spec_bytes());
                }
                r
            },
        }
    }

    /// Whether the group value is [`Debt::Bond`].
    pub fn is_bond(&self) -> (r: bool)
        ensures
            r == (self is Bond),
    {
        matches!(self, Debt::Bond(_))
    }

    /// Whether the group value is [`Debt::Convertible`].
    pub fn is_convertible(&self) -> (r: bool)
        ensures
            r == (self is Convertible),
    {
        matches!(self, Debt::Convertible(_))
    }

    /// Whether the group value is [`Debt::WarrantAttached`].
    pub fn is_warrant_attached(&self) -> (r: bool)
        ensures
            r == (self is WarrantAttached),
    {
        matches!(self, Debt::WarrantAttached(_))
    }

    /// Whether the group value is [`Debt::MediumTerm`].
    pub fn is_medium_term(&self) -> (r: bool)
        ensures
            r == (self is MediumTerm),
    {
        matches!(self, Debt::MediumTerm(_))
    }

    /// Whether the group value is [`Debt::MoneyMarket`].
    pub fn is_money_market(&self) -> (r: bool)
        ensures
            r == (self is MoneyMarket),
    {
        matches!(self, Debt::MoneyMarket(_))
    }

    /// Whether the group value is [`Debt::ProtectedStructured`].
    pub fn is_protected_structured(&self) -> (r: bool)
        ensures
            r == (self is ProtectedStructured),
    {
        matches!(self, Debt::ProtectedStructured(_))
    }

    /// Whether the group value is [`Debt::UnprotectedStructured`].
    pub fn is_unprotected_structured(&self) -> (r: bool)
        ensures
            r == (self is UnprotectedStructured),
    {
        matches!(self, Debt::UnprotectedStructured(_))
    }

    /// Whether the group value is [`Debt::MortgageBacked`].
    pub fn is_mortgage_backed(&self) -> (r: bool)
        ensures
            r == (self is MortgageBacked),
    {
        matches!(self, Debt::MortgageBacked(_))
    }

    /// Whether the group value is [`Debt::AssetBacked`].
    pub fn is_asset_backed(&self) -> (r: bool)
        ensures
            r == (self is AssetBacked),
    {
        matches!(self, Debt::AssetBacked(_))
    }

    /// Whether the group value is [`Debt::Municipal`].
    pub fn is_municipal(&self) -> (r: bool)
        ensures
            r == (self is Municipal),
    {
        matches!(self, Debt::Municipal(_))
    }

    /// Whether the group value is [`Debt::Depository`].
    pub fn is_depository(&self) -> (r: bool)
        ensures
            r == (self is Depository),
    {
        matches!(self, Debt::Depository(_))
    }

    /// Whether the group value is [`Debt::Other`].
    pub fn is_other(&self) -> (r: bool)
        ensures
            r == (self is Other),
    {
        matches!(self, Debt::Other(_))
    }
}

/// Any interest-bearing or discounted security that normally obliges the issuer to pay the
/// bondholder a contracted sum of money and to repay the principal amount of the debt.
#[derive(Clone, Copy, Debug, Eq, Hash, Ord, PartialEq, PartialOrd, Structural)]
pub struct Bond {
    /// Type of interest or cash payment.
    pub kind: InterestInKindOrCash,
    /// Guarantee or ranking.
    pub guarantee: Guarantee,
    /// Redemption/reimbursement.
    pub redemption: Redemption,
    /// Form (negotiability, transmission).
    pub form: Form,
}

impl Bond {
    /// The four attribute bytes, in position order.
    pub open spec fn spec_bytes(self) -> Seq<u8> {
        seq![
            self.kind.spec_byte(),
            self.guarantee.spec_byte(),
            self.redemption.spec_byte(),
            self.form.spec_byte(),
        ]
    }

    /// The value encoded in positions 2-5 of the six-byte code `s`, or
    /// the error for the first invalid position.
    pub open spec fn spec_decode(s: Seq<u8>) -> Result<Bond, Error> {
        if s.len() != 6 {
            Err(Error::InvalidLength)
        } else {
            match InterestInKindOrCash::spec_decode(s[2]) {
                None => Err(Error::InvalidAttribute(2, s[2])),
                Some(kind) => match Guarantee::spec_decode(s[3]) {
                    None => Err(Error::InvalidAttribute(3, s[3])),
                    Some(guarantee) => match Redemption::spec_decode(s[4]) {
                        None => Err(Error::InvalidAttribute(4, s[4])),
                        Some(redemption) => match Form::spec_decode(s[5]) {
                            None => Err(Error::InvalidAttribute(5, s[5])),
                            Some(form) => Ok(Bond { kind, guarantee, redemption, form }),
                        },
                    },
                },
            }
        }
    }

    /// Decode attribute positions 2-5 of a full six-byte code, failing
    /// on the first invalid position.
    pub fn from_bytes(src: &[u8]) -> (r: Result<Bond, Error>)
        ensures
            r == Bond::spec_decode(src@),
    {
        if src.len() != 6 {
            return Err(Error::InvalidLength);
        }
        let kind = match InterestInKindOrCash::from_byte(src[2], 2) {
            Ok(a) => a,
            Err(e) => {
                return Err(e);
            },
        };
        let guarantee = match Guarantee::from_byte(src[3], 3) {
            Ok(a) => a,
            Err(e) => {
                return Err(e);
            },
        };
        let redemption = match Redemption::from_byte(src[4], 4) {
            Ok(a) => a,
            Err(e) => {
                return Err(e);
            },
        };
        let form = match Form::from_byte(src[5], 5) {
            Ok(a) => a,
            Err(e) => {
                return Err(e);
            },
        };
        Ok(Bond { kind, guarantee, redemption, form })
    }

    /// The four attribute bytes, in position order.
    pub fn to_bytes(&self) -> (r: [u8; 4])
        ensures
            r@ == self.spec_bytes(),
    {
        let r = [
            self.kind.to_byte(),
            self.guarantee.to_byte(),
            self.redemption.to_byte(),
            self.form.to_byte(),
        ];
        proof {
            assert(r@ =~= self.spec_bytes());
        }
        r
    }
}

/// A bond that can be converted into other securities.
#[derive(Clone, Copy, Debug, Eq, Hash, Ord, PartialEq, PartialOrd, Structural)]
pub struct Convertible {
    /// Type of interest.
    pub interest: InterestInKind,
    /// Guarantee or ranking.
    pub guarantee: Guarantee,
    /// Redemption/reimbursement.
    pub redemption: Redemption,
    /// Form (negotiability, transmission).
    pub form: Form,
}

impl Convertible {
    /// The four attribute bytes, in position order.
    pub open spec fn spec_bytes(self) -> Seq<u8> {
        seq![
            self.interest.spec_byte(),
            self.guarantee.spec_byte(),
            self.redemption.spec_byte(),
            self.form.spec_byte(),
        ]
    }

    /// The value encoded in positions 2-5 of the six-byte code `s`, or
    /// the error for the first invalid position.
    pub open spec fn spec_decode(s: Seq<u8>) -> Result<Convertible, Error> {
        if s.len() != 6 {
            Err(Error::InvalidLength)
        } else {
            match InterestInKind::spec_decode(s[2]) {
                None => Err(Error::InvalidAttribute(2, s[2])),
                Some(interest) => match Guarantee::spec_decode(s[3]) {
                    None => Err(Error::InvalidAttribute(3, s[3])),
                    Some(guarantee) => match Redemption::spec_decode(s[4]) {
                        None => Err(Error::InvalidAttribute(4, s[4])),
                        Some(redemption) => match Form::spec_decode(s[5]) {
                            None => Err(Error::InvalidAttribute(5, s[5])),
                            Some(form) => Ok(Convertible { interest, guarantee, redemption, form }),
                        },
                    },
                },
            }
        }
    }

    /// Decode attribute positions 2-5 of a full six-byte code, failing
    /// on the first invalid position.
    pub fn from_bytes(src: &[u8]) -> (r: Result<Convertible, Error>)
        ensures
            r == Convertible::spec_decode(src@),
    {
        if src.len() != 6 {
            return Err(Error::InvalidLength);
        }
        let interest = match InterestInKind::from_byte(src[2], 2) {
            Ok(a) => a,
            Err(e) => {
                return Err(e);
            },
        };
        let guarantee = match Guarantee::from_byte(src[3], 3) {
            Ok(a) => a,
            Err(e) => {
                return Err(e);
            },
        };
        let redemption = match Redemption::from_byte(src[4], 4) {
            Ok(a) => a,
            Err(e) => {
                return Err(e);
            },
        };
        let form = match Form::from_byte(src[5], 5) {
            Ok(a) => a,
            Err(e) => {
                return Err(e);
            },
        };
        Ok(Convertible { interest, guarantee, redemption, form })
    }

    /// The four attribute bytes, in position order.
    pub fn to_bytes(&self) -> (r: [u8; 4])
        ensures
            r@ == self.spec_bytes(),
    {
        let r = [
            self.interest.to_byte(),
            self.guarantee.to_byte(),
            self.redemption.to_byte(),
            self.form.to_byte(),
        ];
        proof {
            assert(r@ =~= self.spec_bytes());
        }
        r
    }
}

/// Bonds with warrants attached.
#[derive(Clone, Copy, Debug, Eq, Hash, Ord, PartialEq, PartialOrd, Structural)]
pub struct WarrantAttached {
    /// Type of interest.
    pub interest: InterestInKind,
    /// Guarantee or ranking.
    pub guarantee: Guarantee,
    /// Redemption/reimbursement.
    pub redemption: Redemption,
    /// Form (negotiability, transmission).
    pub form: Form,
}

impl WarrantAttached {
    /// The four attribute bytes, in position order.
    pub open spec fn spec_bytes(self) -> Seq<u8> {
        seq![
            self.interest.spec_byte(),
            self.guarantee.spec_byte(),
            self.redemption.spec_byte(),
            self.form.spec_byte(),
        ]
    }

    /// The value encoded in positions 2-5 of the six-byte code `s`, or
    /// the error for the first invalid position.
    pub open spec fn spec_decode(s: Seq<u8>) -> Result<WarrantAttached, Error> {
        if s.len() != 6 {
            Err(Error::InvalidLength)
        } else {
            match InterestInKind::spec_decode(s[2]) {
                None => Err(Error::InvalidAttribute(2, s[2])),
                Some(interest) => match Guarantee::spec_decode(s[3]) {
                    None => Err(Error::InvalidAttribute(3, s[3])),
                    Some(guarantee) => match Redemption::spec_decode(s[4]) {
                        None => Err(Error::InvalidAttribute(4, s[4])),
                        Some(redemption) => match Form::spec_decode(s[5]) {
                            None => Err(Error::InvalidAttribute(5, s[5])),
                            Some(form) => Ok(WarrantAttached { interest, guarantee, redemption, form }),
                        },
                    },
                },
            }
        }
    }

    /// Decode attribute positions 2-5 of a full six-byte code, failing
    /// on the first invalid position.
    pub fn from_bytes(src: &[u8]) -> (r: Result<WarrantAttached, Error>)
        ensures
            r == WarrantAttached::spec_decode(src@),
    {
        if src.len() != 6 {
            return Err(Error::InvalidLength);
        }
        let interest = match InterestInKind::from_byte(src[2], 2) {
            Ok(a) => a,
            Err(e) => {
                return Err(e);
            },
        };
        let guarantee = match Guarantee::from_byte(src[3], 3) {
            Ok(a) => a,
            Err(e) => {
                return Err(e);
            },
        };
        let redemption = match Redemption::from_byte(src[4], 4) {
            Ok(a) => a,
            Err(e) => {
                return Err(e);
            },
        };
        let form = match Form::from_byte(src[5], 5) {
            Ok(a) => a,
            Err(e) => {
                return Err(e);
            },
        };
        Ok(WarrantAttached { interest, guarantee, redemption, form })
    }

    /// The four attribute bytes, in position order.
    pub fn to_bytes(&self) -> (r: [u8; 4])
        ensures
            r@ == self.spec_bytes(),
    {
        let r = [
            self.interest.to_byte(),
            self.guarantee.to_byte(),
            self.redemption.to_byte(),
            self.form.to_byte(),
        ];
        proof {
            assert(r@ =~= self.spec_bytes());
        }
        r
    }
}

/// Medium-term Notes.
#[derive(Clone, Copy, Debug, Eq, Hash, Ord, PartialEq, PartialOrd, Structural)]
pub struct MediumTerm {
    /// Type of interest.
    pub interest: InterestInKind,
    /// Guarantee or ranking.
    pub guarantee: Guarantee,
    /// Redemption/reimbursement.
    pub redemption: Redemption,
    /// Form (negotiability, transmission).
    pub form: Form,
}

impl MediumTerm {
    /// The four attribute bytes, in position order.
    pub open spec fn spec_bytes(self) -> Seq<u8> {
        seq![
            self.interest.spec_byte(),
            self.guarantee.spec_byte(),
            self.redemption.spec_byte(),
            self.form.spec_byte(),
        ]
    }

    /// The value encoded in positions 2-5 of the six-byte code `s`, or
    /// the error for the first invalid position.
    pub open spec fn spec_decode(s: Seq<u8>) -> Result<MediumTerm, Error> {
        if s.len() != 6 {
            Err(Error::InvalidLength)
        } else {
            match InterestInKind::spec_decode(s[2]) {
                None => Err(Error::InvalidAttribute(2, s[2])),
                Some(interest) => match Guarantee::spec_decode(s[3]) {
                    None => Err(Error::InvalidAttribute(3, s[3])),
                    Some(guarantee) => match Redemption::spec_decode(s[4]) {
                        None => Err(Error::InvalidAttribute(4, s[4])),
                        Some(redemption) => match Form::spec_decode(s[5]) {
                            None => Err(Error::InvalidAttribute(5, s[5])),
                            Some(form) => Ok(MediumTerm { interest, guarantee, redemption, form }),
                        },
                    },
                },
            }
        }
    }

    /// Decode attribute positions 2-5 of a full six-byte code, failing
    /// on the first invalid position.
    pub fn from_bytes(src: &[u8]) -> (r: Result<MediumTerm, Error>)
        ensures
            r == MediumTerm::spec_decode(src@),
    {
        if src.len() != 6 {
            return Err(Error::InvalidLength);
        }
        let interest = match InterestInKind::from_byte(src[2], 2) {
            Ok(a) => a,
            Err(e) => {
                return Err(e);
            },
        };
        let guarantee = match Guarantee::from_byte(src[3], 3) {
            Ok(a) => a,
            Err(e) => {
                return Err(e);
            },
        };
        let redemption = match Redemption::from_byte(src[4], 4) {
            Ok(a) => a,
            Err(e) => {
                return Err(e);
            },
        };
        let form = match Form::from_byte(src[5], 5) {
            Ok(a) => a,
            Err(e) => {
                return Err(e);
            },
        };
        Ok(MediumTerm { interest, guarantee, redemption, form })
    }

    /// The four attribute bytes, in position order.
    pub fn to_bytes(&self) -> (r: [u8; 4])
        ensures
            r@ == self.spec_bytes(),
    {
        let r = [
            self.interest.to_byte(),
            self.guarantee.to_byte(),
            self.redemption.to_byte(),
            self.form.to_byte(),
        ];
        proof {
            assert(r@ =~= self.spec_bytes());
        }
        r
    }
}

/// Money market instruments.
#[derive(Clone, Copy, Debug, Eq, Hash, Ord, PartialEq, PartialOrd, Structural)]
pub struct MoneyMarket {
    /// Type of interest.
    pub interest: InterestInKind,
    /// Guarantee or ranking.
    pub guarantee: Guarantee,
    /// Redemption/reimbursement.
    pub attr3: NotApplicable,
    /// Form (negotiability, transmission).
    pub form: Form,
}

impl MoneyMarket {
    /// The four attribute bytes, in position order.
    pub open spec fn spec_bytes(self) -> Seq<u8> {
        seq![
            self.interest.spec_byte(),
            self.guarantee.spec_byte(),
            self.attr3.spec_byte(),
            self.form.spec_byte(),
        ]
    }

    /// The value encoded in positions 2-5 of the six-byte code `s`, or
    /// the error for the first invalid position.
    pub open spec fn spec_decode(s: Seq<u8>) -> Result<MoneyMarket, Error> {
        if s.len() != 6 {
            Err(Error::InvalidLength)
        } else {
            match InterestInKind::spec_decode(s[2]) {
                None => Err(Error::InvalidAttribute(2, s[2])),
                Some(interest) => match Guarantee::spec_decode(s[3]) {
                    None => Err(Error::InvalidAttribute(3, s[3])),
                    Some(guarantee) => match NotApplicable::spec_decode(s[4]) {
                        None => Err(Error::InvalidAttribute(4, s[4])),
                        Some(attr3) => match Form::spec_decode(s[5]) {
                            None => Err(Error::InvalidAttribute(5, s[5])),
                            Some(form) => Ok(MoneyMarket { interest, guarantee, attr3, form }),
                        },
                    },
                },
            }
        }
    }

    /// Decode attribute positions 2-5 of a full six-byte code, failing
    /// on the first invalid position.
    pub fn from_bytes(src: &[u8]) -> (r: Result<MoneyMarket, Error>)
        ensures
            r == MoneyMarket::spec_decode(src@),
    {
        if src.len() != 6 {
            return Err(Error::InvalidLength);
        }
        let interest = match InterestInKind::from_byte(src[2], 2) {
            Ok(a) => a,
            Err(e) => {
                return Err(e);
            },
        };
        let guarantee = match Guarantee::from_byte(src[3], 3) {
            Ok(a) => a,
            Err(e) => {
                return Err(e);
            },
        };
        let attr3 = match NotApplicable::from_byte(src[4], 4) {
            Ok(a) => a,
            Err(e) => {
                return Err(e);
            },
        };
        let form = match Form::from_byte(src[5], 5) {
            Ok(a) => a,
            Err(e) => {
                return Err(e);
            },
        };
        Ok(MoneyMarket { interest, guarantee, attr3, form })
    }

    /// The four attribute bytes, in position order.
    pub fn to_bytes(&self) -> (r: [u8; 4])
        ensures
            r@ == self.spec_bytes(),
    {
        let r = [
            self.interest.to_byte(),
            self.guarantee.to_byte(),
            self.attr3.to_byte(),
            self.form.to_byte(),
        ];
        proof {
            assert(r@ =~= self.spec_bytes());
        }
        r
    }
}

/// Structured products (with capital protection).
#[derive(Clone, Copy, Debug, Eq, Hash, Ord, PartialEq, PartialOrd, Structural)]
pub struct ProtectedStructured {
    /// Type of structured instrument with capital protection.
    pub kind: ProtectedKind,
    /// Distribution.
    pub distribution: Distribution,
    /// Repayment.
    pub repayment: ProtectedRepayment,
    /// Underlying assets.
    pub underlying: Underlying,
}

impl ProtectedStructured {
    /// The four attribute bytes, in position order.
    pub open spec fn spec_bytes(self) -> Seq<u8> {
        seq![
            self.kind.spec_byte(),
            self.distribution.spec_byte(),
            self.repayment.spec_byte(),
            self.underlying.spec_byte(),
        ]
    }

    /// The value encoded in positions 2-5 of the six-byte code `s`, or
    /// the error for the first invalid position.
    pub open spec fn spec_decode(s: Seq<u8>) -> Result<ProtectedStructured, Error> {
        if s.len() != 6 {
            Err(Error::InvalidLength)
        } else {
            match ProtectedKind::spec_decode(s[2]) {
                None => Err(Error::InvalidAttribute(2, s[2])),
                Some(kind) => match Distribution::spec_decode(s[3]) {
                    None => Err(Error::InvalidAttribute(3, s[3])),
                    Some(distribution) => match ProtectedRepayment::spec_decode(s[4]) {
                        None => Err(Error::InvalidAttribute(4, s[4])),
                        Some(repayment) => match Underlying::spec_decode(s[5]) {
                            None => Err(Error::InvalidAttribute(5, s[5])),
                            Some(underlying) => Ok(ProtectedStructured { kind, distribution, repayment, underlying }),
                        },
                    },
                },
            }
        }
    }

    /// Decode attribute positions 2-5 of a full six-byte code, failing
    /// on the first invalid position.
    pub fn from_bytes(src: &[u8]) -> (r: Result<ProtectedStructured, Error>)
        ensures
            r == ProtectedStructured::spec_decode(src@),
    {
        if src.len() != 6 {
            return Err(Error::InvalidLength);
        }
        let kind = match ProtectedKind::from_byte(src[2], 2) {
            Ok(a) => a,
            Err(e) => {
                return Err(e);
            },
        };
        let distribution = match Distribution::from_byte(src[3], 3) {
            Ok(a) => a,
            Err(e) => {
                return Err(e);
            },
        };
        let repayment = match ProtectedRepayment::from_byte(src[4], 4) {
            Ok(a) => a,
            Err(e) => {
                return Err(e);
            },
        };
        let underlying = match Underlying::from_byte(src[5], 5) {
            Ok(a) => a,
            Err(e) => {
                return Err(e);
            },
        };
        Ok(ProtectedStructured { kind, distribution, repayment, underlying })
    }

    /// The four attribute bytes, in position order.
    pub fn to_bytes(&self) -> (r: [u8; 4])
        ensures
            r@ == self.spec_bytes(),
    {
        let r = [
            self.kind.to_byte(),
            self.distribution.to_byte(),
            self.repayment.to_byte(),
            self.underlying.to_byte(),
        ];
        proof {
            assert(r@ =~= self.spec_bytes());
        }
        r
    }
}

/// Structured instruments (without capital protection).
#[derive(Clone, Copy, Debug, Eq, Hash, Ord, PartialEq, PartialOrd, Structural)]
pub struct UnprotectedStructured {
    /// Type of structured instrument without capital protection.
    pub kind: UnprotectedKind,
    /// Distribution.
    pub distribution: Distribution,
    /// Repayment.
    pub repayment: UnprotectedRepayment,
    /// Underlying assets.
    pub underlying: Underlying,
}

impl UnprotectedStructured {
    /// The four attribute bytes, in position order.
    pub open spec fn spec_bytes(self) -> Seq<u8> {
        seq![
            self.kind.spec_byte(),
            self.distribution.spec_byte(),
            self.repayment.spec_byte(),
            self.underlying.spec_byte(),
        ]
    }

    /// The value encoded in positions 2-5 of the six-byte code `s`, or
    /// the error for the first invalid position.
    pub open spec fn spec_decode(s: Seq<u8>) -> Result<UnprotectedStructured, Error> {
        if s.len() != 6 {
            Err(Error::InvalidLength)
        } else {
            match UnprotectedKind::spec_decode(s[2]) {
                None => Err(Error::InvalidAttribute(2, s[2])),
                Some(kind) => match Distribution::spec_decode(s[3]) {
                    None => Err(Error::InvalidAttribute(3, s[3])),
                    Some(distribution) => match UnprotectedRepayment::spec_decode(s[4]) {
                        None => Err(Error::InvalidAttribute(4, s[4])),
                        Some(repayment) => match Underlying::spec_decode(s[5]) {
                            None => Err(Error::InvalidAttribute(5, s[5])),
                            Some(underlying) => Ok(UnprotectedStructured { kind, distribution, repayment, underlying }),
                        },
                    },
                },
            }
        }
    }

    /// Decode attribute positions 2-5 of a full six-byte code, failing
    /// on the first invalid position.
    pub fn from_bytes(src: &[u8]) -> (r: Result<UnprotectedStructured, Error>)
        ensures
            r == UnprotectedStructured::spec_decode(src@),
    {
        if src.len() != 6 {
            return Err(Error::InvalidLength);
        }
        let kind = match UnprotectedKind::from_byte(src[2], 2) {
            Ok(a) => a,
            Err(e) => {
                return Err(e);
            },
        };
        let distribution = match Distribution::from_byte(src[3], 3) {
            Ok(a) => a,
            Err(e) => {
                return Err(e);
            },
        };
        let repayment = match UnprotectedRepayment::from_byte(src[4], 4) {
            Ok(a) => a,
            Err(e) => {
                return Err(e);
            },
        };
        let underlying = match Underlying::from_byte(src[5], 5) {
            Ok(a) => a,
            Err(e) => {
                return Err(e);
            },
        };
        Ok(UnprotectedStructured { kind, distribution, repayment, underlying })
    }

    /// The four attribute bytes, in position order.
    pub fn to_bytes(&self) -> (r: [u8; 4])
        ensures
            r@ == self.spec_bytes(),
    {
        let r = [
            self.kind.to_byte(),
            self.distribution.to_byte(),
            self.repayment.to_byte(),
            self.underlying.to_byte(),
        ];
        proof {
            assert(r@ =~= self.spec_bytes());
        }
        r
    }
}

/// Mortgage-backed securities (MBS).
#[derive(Clone, Copy, Debug, Eq, Hash, Ord, PartialEq, PartialOrd, Structural)]
pub struct MortgageBacked {
    /// Type of interest.
    pub interest: Interest,
    /// Guarantee or ranking.
    pub guarantee: Guarantee,
    /// Redemption/reimbursement.
    pub redemption: Redemption,
    /// Form (negotiability, transmission).
    pub form: Form,
}

impl MortgageBacked {
    /// The four attribute bytes, in position order.
    pub open spec fn spec_bytes(self) -> Seq<u8> {
        seq![
            self.interest.spec_byte(),
            self.guarantee.spec_byte(),
            self.redemption.spec_byte(),
            self.form.spec_byte(),
        ]
    }

    /// The value encoded in positions 2-5 of the six-byte code `s`, or
    /// the error for the first invalid position.
    pub open spec fn spec_decode(s: Seq<u8>) -> Result<MortgageBacked, Error> {
        if s.len() != 6 {
            Err(Error::InvalidLength)
        } else {
            match Interest::spec_decode(s[2]) {
                None => Err(Error::InvalidAttribute(2, s[2])),
                Some(interest) => match Guarantee::spec_decode(s[3]) {
                    None => Err(Error::InvalidAttribute(3, s[3])),
                    Some(guarantee) => match Redemption::spec_decode(s[4]) {
                        None => Err(Error::InvalidAttribute(4, s[4])),
                        Some(redemption) => match Form::spec_decode(s[5]) {
                            None => Err(Error::InvalidAttribute(5, s[5])),
                            Some(form) => Ok(MortgageBacked { interest, guarantee, redemption, form }),
                        },
                    },
                },
            }
        }
    }

    /// Decode attribute positions 2-5 of a full six-byte code, failing
    /// on the first invalid position.
    pub fn from_bytes(src: &[u8]) -> (r: Result<MortgageBacked, Error>)
        ensures
            r == MortgageBacked::spec_decode(src@),
    {
        if src.len() != 6 {
            return Err(Error::InvalidLength);
        }
        let interest = match Interest::from_byte(src[2], 2) {
            Ok(a) => a,
            Err(e) => {
                return Err(e);
            },
        };
        let guarantee = match Guarantee::from_byte(src[3], 3) {
            Ok(a) => a,
            Err(e) => {
                return Err(e);
            },
        };
        let redemption = match Redemption::from_byte(src[4], 4) {
            Ok(a) => a,
            Err(e) => {
                return Err(e);
            },
        };
        let form = match Form::from_byte(src[5], 5) {
            Ok(a) => a,
            Err(e) => {
                return Err(e);
            },
        };
        Ok(MortgageBacked { interest, guarantee, redemption, form })
    }

    /// The four attribute bytes, in position order.
    pub fn to_bytes(&self) -> (r: [u8; 4])
        ensures
            r@ == self.spec_bytes(),
    {
        let r = [
            self.interest.to_byte(),
            self.guarantee.to_byte(),
            self.redemption.to_byte(),
            self.form.to_byte(),
        ];
        proof {
            assert(r@ =~= self.spec_bytes());
        }
        r
    }
}

/// Asset-backed securities (ABS).
#[derive(Clone, Copy, Debug, Eq, Hash, Ord, PartialEq, PartialOrd, Structural)]
pub struct AssetBacked {
    /// Type of interest.
    pub interest: Interest,
    /// Guarantee or ranking.
    pub guarantee: Guarantee,
    /// Redemption/reimbursement.
    pub redemption: Redemption,
    /// Form (negotiability, transmission).
    pub form: Form,
}

impl AssetBacked {
    /// The four attribute bytes, in position order.
    pub open spec fn spec_bytes(self) -> Seq<u8> {
        seq![
            self.interest.spec_byte(),
            self.guarantee.spec_byte(),
            self.redemption.spec_byte(),
            self.form.spec_byte(),
        ]
    }

    /// The value encoded in positions 2-5 of the six-byte code `s`, or
    /// the error for the first invalid position.
    pub open spec fn spec_decode(s: Seq<u8>) -> Result<AssetBacked, Error> {
        if s.len() != 6 {
            Err(Error::InvalidLength)
        } else {
            match Interest::spec_decode(s[2]) {
                None => Err(Error::InvalidAttribute(2, s[2])),
                Some(interest) => match Guarantee::spec_decode(s[3]) {
                    None => Err(Error::InvalidAttribute(3, s[3])),
                    Some(guarantee) => match Redemption::spec_decode(s[4]) {
                        None => Err(Error::InvalidAttribute(4, s[4])),
                        Some(redemption) => match Form::spec_decode(s[5]) {
                            None => Err(Error::InvalidAttribute(5, s[5])),
                            Some(form) => Ok(AssetBacked { interest, guarantee, redemption, form }),
                        },
                    },
                },
            }
        }
    }

    /// Decode attribute positions 2-5 of a full six-byte code, failing
    /// on the first invalid position.
    pub fn from_bytes(src: &[u8]) -> (r: Result<AssetBacked, Error>)
        ensures
            r == AssetBacked::spec_decode(src@),
    {
        if src.len() != 6 {
            return Err(Error::InvalidLength);
        }
        let interest = match Interest::from_byte(src[2], 2) {
            Ok(a) => a,
            Err(e) => {
                return Err(e);
            },
        };
        let guarantee = match Guarantee::from_byte(src[3], 3) {
            Ok(a) => a,
            Err(e) => {
                return Err(e);
            },
        };
        let redemption = match Redemption::from_byte(src[4], 4) {
            Ok(a) => a,
            Err(e) => {
                return Err(e);
            },
        };
        let form = match Form::from_byte(src[5], 5) {
            Ok(a) => a,
            Err(e) => {
                return Err(e);
            },
        };
        Ok(AssetBacked { interest, guarantee, redemption, form })
    }

    /// The four attribute bytes, in position order.
    pub fn to_bytes(&self) -> (r: [u8; 4])
        ensures
            r@ == self.spec_bytes(),
    {
        let r = [
            self.interest.to_byte(),
            self.guarantee.to_byte(),
            self.redemption.to_byte(),
            self.form.to_byte(),
        ];
        proof {
            assert(r@ =~= self.spec_bytes());
        }
        r
    }
}

/// Municipal bonds.
#[derive(Clone, Copy, Debug, Eq, Hash, Ord, PartialEq, PartialOrd, Structural)]
pub struct Municipal {
    /// Type of interest.
    pub interest: Interest,
    /// Guarantee or ranking.
    pub guarantee: Guarantee,
    /// Redemption/reimbursement.
    pub redemption: Redemption,
    /// Form (negotiability, transmission).
    pub form: Form,
}

impl Municipal {
    /// The four attribute bytes, in position order.
    pub open spec fn spec_bytes(self) -> Seq<u8> {
        seq![
            self.interest.spec_byte(),
            self.guarantee.spec_byte(),
            self.redemption.spec_byte(),
            self.form.spec_byte(),
        ]
    }

    /// The value encoded in positions 2-5 of the six-byte code `s`, or
    /// the error for the first invalid position.
    pub open spec fn spec_decode(s: Seq<u8>) -> Result<Municipal, Error> {
        if s.len() != 6 {
            Err(Error::InvalidLength)
        } else {
            match Interest::spec_decode(s[2]) {
                None => Err(Error::InvalidAttribute(2, s[2])),
                Some(interest) => match Guarantee::spec_decode(s[3]) {
                    None => Err(Error::InvalidAttribute(3, s[3])),
                    Some(guarantee) => match Redemption::spec_decode(s[4]) {
                        None => Err(Error::InvalidAttribute(4, s[4])),
                        Some(redemption) => match Form::spec_decode(s[5]) {
                            None => Err(Error::InvalidAttribute(5, s[5])),
                            Some(form) => Ok(Municipal { interest, guarantee, redemption, form }),
                        },
                    },
                },
            }
        }
    }

    /// Decode attribute positions 2-5 of a full six-byte code, failing
    /// on the first invalid position.
    pub fn from_bytes(src: &[u8]) -> (r: Result<Municipal, Error>)
        ensures
            r == Municipal::spec_decode(src@),
    {
        if src.len() != 6 {
            return Err(Error::InvalidLength);
        }
        let interest = match Interest::from_byte(src[2], 2) {
            Ok(a) => a,
            Err(e) => {
                return Err(e);
            },
        };
        let guarantee = match Guarantee::from_byte(src[3], 3) {
            Ok(a) => a,
            Err(e) => {
                return Err(e);
            },
        };
        let redemption = match Redemption::from_byte(src[4], 4) {
            Ok(a) => a,
            Err(e) => {
                return Err(e);
            },
        };
        let form = match Form::from_byte(src[5], 5) {
            Ok(a) => a,
            Err(e) => {
                return Err(e);
            },
        };
        Ok(Municipal { interest, guarantee, redemption, form })
    }

    /// The four attribute bytes, in position order.
    pub fn to_bytes(&self) -> (r: [u8; 4])
        ensures
            r@ == self.spec_bytes(),
    {
        let r = [
            self.interest.to_byte(),
            self.guarantee.to_byte(),
            self.redemption.to_byte(),
            self.form.to_byte(),
        ];
        proof {
            assert(r@ =~= self.spec_bytes());
        }
        r
    }
}

/// Depository receipts on debt instruments.
#[derive(Clone, Copy, Debug, Eq, Hash, Ord, PartialEq, PartialOrd, Structural)]
pub struct Depository {
    /// Instrument dependency.
    pub dependency: Dependency,
    /// Type of interest/cash payment.
    pub interest: InterestOrCash,
    /// Guarantee or ranking.
    pub guarantee: Guarantee,
    /// Redemption/reimbursement.
    pub redemption: Redemption,
}

impl Depository {
    /// The four attribute bytes, in position order.
    pub open spec fn spec_bytes(self) -> Seq<u8> {
        seq![
            self.dependency.spec_byte(),
            self.interest.spec_byte(),
            self.guarantee.spec_byte(),
            self.redemption.spec_byte(),
        ]
    }

    /// The value encoded in positions 2-5 of the six-byte code `s`, or
    /// the error for the first invalid position.
    pub open spec fn spec_decode(s: Seq<u8>) -> Result<Depository, Error> {
        if s.len() != 6 {
            Err(Error::InvalidLength)
        } else {
            match Dependency::spec_decode(s[2]) {
                None => Err(Error::InvalidAttribute(2, s[2])),
                Some(dependency) => match InterestOrCash::spec_decode(s[3]) {
                    None => Err(Error::InvalidAttribute(3, s[3])),
                    Some(interest) => match Guarantee::spec_decode(s[4]) {
                        None => Err(Error::InvalidAttribute(4, s[4])),
                        Some(guarantee) => match Redemption::spec_decode(s[5]) {
                            None => Err(Error::InvalidAttribute(5, s[5])),
                            Some(redemption) => Ok(Depository { dependency, interest, guarantee, redemption }),
                        },
                    },
                },
            }
        }
    }

    /// Decode attribute positions 2-5 of a full six-byte code, failing
    /// on the first invalid position.
    pub fn from_bytes(src: &[u8]) -> (r: Result<Depository, Error>)
        ensures
            r == Depository::spec_decode(src@),
    {
        if src.len() != 6 {
            return Err(Error::InvalidLength);
        }
        let dependency = match Dependency::from_byte(src[2], 2) {
            Ok(a) => a,
            Err(e) => {
                return Err(e);
            },
        };
        let interest = match InterestOrCash::from_byte(src[3], 3) {
            Ok(a) => a,
            Err(e) => {
                return Err(e);
            },
        };
        let guarantee = match Guarantee::from_byte(src[4], 4) {
            Ok(a) => a,
            Err(e) => {
                return Err(e);
            },
        };
        let redemption = match Redemption::from_byte(src[5], 5) {
            Ok(a) => a,
            Err(e) => {
                return Err(e);
            },
        };
        Ok(Depository { dependency, interest, guarantee, redemption })
    }

    /// The four attribute bytes, in position order.
    pub fn to_bytes(&self) -> (r: [u8; 4])
        ensures
            r@ == self.spec_bytes(),
    {
        let r = [
            self.dependency.to_byte(),
            self.interest.to_byte(),
            self.guarantee.to_byte(),
            self.redemption.to_byte(),
        ];
        proof {
            assert(r@ =~= self.spec_bytes());
        }
        r
    }
}

/// Others (miscellaneous).
#[derive(Clone, Copy, Debug, Eq, Hash, Ord, PartialEq, PartialOrd, Structural)]
pub struct Other {
    /// The type of debt instrument.
    pub kind: OtherKind,
    /// Not applicable/undefined.
    pub attr2: NotApplicable,
    /// Not applicable/undefined.
    pub attr3: NotApplicable,
    /// Form (negotiability, transmission).
    pub form: Form,
}

impl Other {
    /// The four attribute bytes, in position order.
    pub open spec fn spec_bytes(self) -> Seq<u8> {
        seq![
            self.kind.spec_byte(),
            self.attr2.spec_byte(),
            self.attr3.spec_byte(),
            self.form.spec_byte(),
        ]
    }

    /// The value encoded in positions 2-5 of the six-byte code `s`, or
    /// the error for the first invalid position.
    pub open spec fn spec_decode(s: Seq<u8>) -> Result<Other, Error> {
        if s.len() != 6 {
            Err(Error::InvalidLength)
        } else {
            match OtherKind::spec_decode(s[2]) {
                None => Err(Error::InvalidAttribute(2, s[2])),
                Some(kind) => match NotApplicable::spec_decode(s[3]) {
                    None => Err(Error::InvalidAttribute(3, s[3])),
                    Some(attr2) => match NotApplicable::spec_decode(s[4]) {
                        None => Err(Error::InvalidAttribute(4, s[4])),
                        Some(attr3) => match Form::spec_decode(s[5]) {
                            None => Err(Error::InvalidAttribute(5, s[5])),
                            Some(form) => Ok(Other { kind, attr2, attr3, form }),
                        },
                    },
                },
            }
        }
    }

    /// Decode attribute positions 2-5 of a full six-byte code, failing
    /// on the first invalid position.
    pub fn from_bytes(src: &[u8]) -> (r: Result<Other, Error>)
        ensures
            r == Other::spec_decode(src@),
    {
        if src.len() != 6 {
            return Err(Error::InvalidLength);
        }
        let kind = match OtherKind::from_byte(src[2], 2) {
            Ok(a) => a,
            Err(e) => {
                return Err(e);
            },
        };
        let attr2 = match NotApplicable::from_byte(src[3], 3) {
            Ok(a) => a,
            Err(e) => {
                return Err(e);
            },
        };
        let attr3 = match NotApplicable::from_byte(src[4], 4) {
            Ok(a) => a,
            Err(e) => {
                return Err(e);
            },
        };
        let form = match Form::from_byte(src[5], 5) {
            Ok(a) => a,
            Err(e) => {
                return Err(e);
            },
        };
        Ok(Other { kind, attr2, attr3, form })
    }

    /// The four attribute bytes, in position order.
    pub fn to_bytes(&self) -> (r: [u8; 4])
        ensures
            r@ == self.spec_bytes(),
    {
        let r = [
            self.kind.to_byte(),
            self.attr2.to_byte(),
            self.attr3.to_byte(),
            self.form.to_byte(),
        ];
        proof {
            assert(r@ =~= self.spec_bytes());
        }
        r
    }
}

/// Type of interest or cash payment.
#[derive(Clone, Copy, Debug, Eq, Hash, Ord, PartialEq, PartialOrd, Structural)]
pub enum InterestInKindOrCash {
    /// `F`: Fixed rate.
    FixedRate,
    /// `Z`: Zero/discounted rate.
    ZeroRate,
    /// `V`: Variable rate.
    Variable,
    /// `C`: Cash payment.
    CashPayment,
    /// `K`: Payment in-kind.
    PaymentInKind,
    /// `X`: Not applicable or undefined.
    Undefined,
}

impl InterestInKindOrCash {
    /// The code character assigned to this value.
    pub open spec fn spec_byte(self) -> u8 {
        match self {
            InterestInKindOrCash::FixedRate => 'F' as u8,
            InterestInKindOrCash::ZeroRate => 'Z' as u8,
            InterestInKindOrCash::Variable => 'V' as u8,
            InterestInKindOrCash::CashPayment => 'C' as u8,
            InterestInKindOrCash::PaymentInKind => 'K' as u8,
            InterestInKindOrCash::Undefined => 'X' as u8,
        }
    }

    /// The member encoded by `b`, if `b` lies in this attribute's alphabet.
    pub open spec fn spec_decode(b: u8) -> Option<InterestInKindOrCash> {
        if b == 'F' as u8 {
            Some(InterestInKindOrCash::FixedRate)
        } else if b == 'Z' as u8 {
            Some(InterestInKindOrCash::ZeroRate)
        } else if b == 'V' as u8 {
            Some(InterestInKindOrCash::Variable)
        } else if b == 'C' as u8 {
            Some(InterestInKindOrCash::CashPayment)
        } else if b == 'K' as u8 {
            Some(InterestInKindOrCash::PaymentInKind)
        } else if b == 'X' as u8 {
            Some(InterestInKindOrCash::Undefined)
        } else {
            None
        }
    }

    /// Decode the attribute byte found at position `pos` of a code.
    pub fn from_byte(b: u8, pos: usize) -> (r: Result<InterestInKindOrCash, Error>)
        ensures
            match InterestInKindOrCash::spec_decode(b) {
                Some(a) => r == Ok::<InterestInKindOrCash, Error>(a),
                None => r == Err::<InterestInKindOrCash, Error>(Error::InvalidAttribute(pos, b)),
            },
    {
        if b == 'F' as u8 {
            Ok(InterestInKindOrCash::FixedRate)
        } else if b == 'Z' as u8 {
            Ok(InterestInKindOrCash::ZeroRate)
        } else if b == 'V' as u8 {
            Ok(InterestInKindOrCash::Variable)
        } else if b == 'C' as u8 {
            Ok(InterestInKindOrCash::CashPayment)
        } else if b == 'K' as u8 {
            Ok(InterestInKindOrCash::PaymentInKind)
        } else if b == 'X' as u8 {
            Ok(InterestInKindOrCash::Undefined)
        } else {
            Err(Error::InvalidAttribute(pos, b))
        }
    }

    /// The byte this value encodes to; the inverse of decoding.
    pub fn to_byte(&self) -> (r: u8)
        ensures
            r == self.spec_byte(),
    {
        match self {
            InterestInKindOrCash::FixedRate => 'F' as u8,
            InterestInKindOrCash::ZeroRate => 'Z' as u8,
            InterestInKindOrCash::Variable => 'V' as u8,
            InterestInKindOrCash::CashPayment => 'C' as u8,
            InterestInKindOrCash::PaymentInKind => 'K' as u8,
            InterestInKindOrCash::Undefined => 'X' as u8,
        }
    }

    /// Check if this value is [`InterestInKindOrCash::FixedRate`].
    pub fn is_fixed_rate(&self) -> (r: bool)
        ensures
            r == (self is FixedRate),
    {
        matches!(self, InterestInKindOrCash::FixedRate)
    }

    /// Check if this value is [`InterestInKindOrCash::ZeroRate`].
    pub fn is_zero_rate(&self) -> (r: bool)
        ensures
            r == (self is ZeroRate),
    {
        matches!(self, InterestInKindOrCash::ZeroRate)
    }

    /// Check if this value is [`InterestInKindOrCash::Variable`].
    pub fn is_variable(&self) -> (r: bool)
        ensures
            r == (self is Variable),
    {
        matches!(self, InterestInKindOrCash::Variable)
    }

    /// Check if this value is [`InterestInKindOrCash::CashPayment`].
    pub fn is_cash_payment(&self) -> (r: bool)
        ensures
            r == (self is CashPayment),
    {
        matches!(self, InterestInKindOrCash::CashPayment)
    }

    /// Check if this value is [`InterestInKindOrCash::PaymentInKind`].
    pub fn is_payment_in_kind(&self) -> (r: bool)
        ensures
            r == (self is PaymentInKind),
    {
        matches!(self, InterestInKindOrCash::PaymentInKind)
    }

    /// Check if this value is [`InterestInKindOrCash::Undefined`].
    pub fn is_undefined(&self) -> (r: bool)
        ensures
            r == (self is Undefined),
    {
        matches!(self, InterestInKindOrCash::Undefined)
    }
}

/// Guarantee or ranking (indicates, in the case of the issuer's inability to settle, whether
/// the debt issue is additionally secured).
#[derive(Clone, Copy, Debug, Eq, Hash, Ord, PartialEq, PartialOrd, Structural)]
pub enum Guarantee {
    /// `T`: Government guarantee.
    Government,
    /// `G`: Joint guarantee.
    Joint,
    /// `S`: Secured.
    Secured,
    /// `U`: Unsecured/unguaranteed.
    Unsecured,
    /// `P`: Negative pledge.
    NegativePledge,
    /// `N`: Senior.
    Senior,
    /// `O`: Senior subordinated.
    SeniorSubordinated,
    /// `Q`: Junior.
    Junior,
    /// `J`: Junior subordinated.
    JuniorSubordinated,
    /// `C`: Supranational.
    Supranational,
    /// `X`: Not applicable or undefined.
    Undefined,
}

impl Guarantee {
    /// The code character assigned to this value.
    pub open spec fn spec_byte(self) -> u8 {
        match self {
            Guarantee::Government => 'T' as u8,
            Guarantee::Joint => 'G' as u8,
            Guarantee::Secured => 'S' as u8,
            Guarantee::Unsecured => 'U' as u8,
            Guarantee::NegativePledge => 'P' as u8,
            Guarantee::Senior => 'N' as u8,
            Guarantee::SeniorSubordinated => 'O' as u8,
            Guarantee::Junior => 'Q' as u8,
            Guarantee::JuniorSubordinated => 'J' as u8,
            Guarantee::Supranational => 'C' as u8,
            Guarantee::Undefined => 'X' as u8,
        }
    }

    /// The member encoded by `b`, if `b` lies in this attribute's alphabet.
    pub open spec fn spec_decode(b: u8) -> Option<Guarantee> {
        if b == 'T' as u8 {
            Some(Guarantee::Government)
        } else if b == 'G' as u8 {
            Some(Guarantee::Joint)
        } else if b == 'S' as u8 {
            Some(Guarantee::Secured)
        } else if b == 'U' as u8 {
            Some(Guarantee::Unsecured)
        } else if b == 'P' as u8 {
            Some(Guarantee::NegativePledge)
        } else if b == 'N' as u8 {
            Some(Guarantee::Senior)
        } else if b == 'O' as u8 {
            Some(Guarantee::SeniorSubordinated)
        } else if b == 'Q' as u8 {
            Some(Guarantee::Junior)
        } else if b == 'J' as u8 {
            Some(Guarantee::JuniorSubordinated)
        } else if b == 'C' as u8 {
            Some(Guarantee::Supranational)
        } else if b == 'X' as u8 {
            Some(Guarantee::Undefined)
        } else {
            None
        }
    }

    /// Decode the attribute byte found at position `pos` of a code.
    pub fn from_byte(b: u8, pos: usize) -> (r: Result<Guarantee, Error>)
        ensures
            match Guarantee::spec_decode(b) {
                Some(a) => r == Ok::<Guarantee, Error>(a),
                None => r == Err::<Guarantee, Error>(Error::InvalidAttribute(pos, b)),
            },
    {
        if b == 'T' as u8 {
            Ok(Guarantee::Government)
        } else if b == 'G' as u8 {
            Ok(Guarantee::Joint)
        } else if b == 'S' as u8 {
            Ok(Guarantee::Secured)
        } else if b == 'U' as u8 {
            Ok(Guarantee::Unsecured)
        } else if b == 'P' as u8 {
            Ok(Guarantee::NegativePledge)
        } else if b == 'N' as u8 {
            Ok(Guarantee::Senior)
        } else if b == 'O' as u8 {
            Ok(Guarantee::SeniorSubordinated)
        } else if b == 'Q' as u8 {
            Ok(Guarantee::Junior)
        } else if b == 'J' as u8 {
            Ok(Guarantee::JuniorSubordinated)
        } else if b == 'C' as u8 {
            Ok(Guarantee::Supranational)
        } else if b == 'X' as u8 {
            Ok(Guarantee::Undefined)
        } else {
            Err(Error::InvalidAttribute(pos, b))
        }
    }

    /// The byte this value encodes to; the inverse of decoding.
    pub fn to_byte(&self) -> (r: u8)
        ensures
            r == self.spec_byte(),
    {
        match self {
            Guarantee::Government => 'T' as u8,
            Guarantee::Joint => 'G' as u8,
            Guarantee::Secured => 'S' as u8,
            Guarantee::Unsecured => 'U' as u8,
            Guarantee::NegativePledge => 'P' as u8,
            Guarantee::Senior => 'N' as u8,
            Guarantee::SeniorSubordinated => 'O' as u8,
            Guarantee::Junior => 'Q' as u8,
            Guarantee::JuniorSubordinated => 'J' as u8,
            Guarantee::Supranational => 'C' as u8,
            Guarantee::Undefined => 'X' as u8,
        }
    }

    /// Check if this value is [`Guarantee::Government`].
    pub fn is_government(&self) -> (r: bool)
        ensures
            r == (self is Government),
    {
        matches!(self, Guarantee::Government)
    }

    /// Check if this value is [`Guarantee::Joint`].
    pub fn is_joint(&self) -> (r: bool)
        ensures
            r == (self is Joint),
    {
        matches!(self, Guarantee::Joint)
    }

    /// Check if this value is [`Guarantee::Secured`].
    pub fn is_secured(&self) -> (r: bool)
        ensures
            r == (self is Secured),
    {
        matches!(self, Guarantee::Secured)
    }

    /// Check if this value is [`Guarantee::Unsecured`].
    pub fn is_unsecured(&self) -> (r: bool)
        ensures
            r == (self is Unsecured),
    {
        matches!(self, Guarantee::Unsecured)
    }

    /// Check if this value is [`Guarantee::NegativePledge`].
    pub fn is_negative_pledge(&self) -> (r: bool)
        ensures
            r == (self is NegativePledge),
    {
        matches!(self, Guarantee::NegativePledge)
    }

    /// Check if this value is [`Guarantee::Senior`].
    pub fn is_senior(&self) -> (r: bool)
        ensures
            r == (self is Senior),
    {
        matches!(self, Guarantee::Senior)
    }

    /// Check if this value is [`Guarantee::SeniorSubordinated`].
    pub fn is_senior_subordinated(&self) -> (r: bool)
        ensures
            r == (self is SeniorSubordinated),
    {
        matches!(self, Guarantee::SeniorSubordinated)
    }

    /// Check if this value is [`Guarantee::Junior`].
    pub fn is_junior(&self) -> (r: bool)
        ensures
            r == (self is Junior),
    {
        matches!(self, Guarantee::Junior)
    }

    /// Check if this value is [`Guarantee::JuniorSubordinated`].
    pub fn is_junior_subordinated(&self) -> (r: bool)
        ensures
            r == (self is JuniorSubordinated),
    {
        matches!(self, Guarantee::JuniorSubordinated)
    }

    /// Check if this value is [`Guarantee::Supranational`].
    pub fn is_supranational(&self) -> (r: bool)
        ensures
            r == (self is Supranational),
    {
        matches!(self, Guarantee::Supranational)
    }

    /// Check if this value is [`Guarantee::Undefined`].
    pub fn is_undefined(&self) -> (r: bool)
        ensures
            r == (self is Undefined),
    {
        matches!(self, Guarantee::Undefined)
    }
}

/// Redemption/reimbursement.
#[derive(Clone, Copy, Debug, Eq, Hash, Ord, PartialEq, PartialOrd, Structural)]
pub enum Redemption {
    /// `F`: Fixed maturity.
    FixedMaturity,
    /// `G`: Fixed maturity with call feature.
    FixedWithCall,
    /// `C`: Fixed maturity with put feature.
    FixedWithPut,
    /// `D`: Fixed maturity with both put and call features.
    FixedWithPutAndCall,
    /// `A`: Amortization plan.
    Amortization,
    /// `B`: Amortization plan with call feature.
    AmortizationWithCall,
    /// `T`: Amortization plan with put feature.
    AmortizationWithPut,
    /// `L`: Amortization plan with put and call feature.
    AmortizationWithPutAndCall,
    /// `P`: Perpetual.
    Perpetual,
    /// `Q`: Perpetual with call feature.
    PerpetualWithCall,
    /// `R`: Perpetual with put feature.
    PerpetualWithPut,
    /// `E`: Extendible.
    Extendible,
    /// `X`: Not applicable or undefined.
    Undefined,
}

impl Redemption {
    /// The code character assigned to this value.
    pub open spec fn spec_byte(self) -> u8 {
        match self {
            Redemption::FixedMaturity => 'F' as u8,
            Redemption::FixedWithCall => 'G' as u8,
            Redemption::FixedWithPut => 'C' as u8,
            Redemption::FixedWithPutAndCall => 'D' as u8,
            Redemption::Amortization => 'A' as u8,
            Redemption::AmortizationWithCall => 'B' as u8,
            Redemption::AmortizationWithPut => 'T' as u8,
            Redemption::AmortizationWithPutAndCall => 'L' as u8,
            Redemption::Perpetual => 'P' as u8,
            Redemption::PerpetualWithCall => 'Q' as u8,
            Redemption::PerpetualWithPut => 'R' as u8,
            Redemption::Extendible => 'E' as u8,
            Redemption::Undefined => 'X' as u8,
        }
    }

    /// The member encoded by `b`, if `b` lies in this attribute's alphabet.
    pub open spec fn spec_decode(b: u8) -> Option<Redemption> {
        if b == 'F' as u8 {
            Some(Redemption::FixedMaturity)
        } else if b == 'G' as u8 {
            Some(Redemption::FixedWithCall)
        } else if b == 'C' as u8 {
            Some(Redemption::FixedWithPut)
        } else if b == 'D' as u8 {
            Some(Redemption::FixedWithPutAndCall)
        } else if b == 'A' as u8 {
            Some(Redemption::Amortization)
        } else if b == 'B' as u8 {
            Some(Redemption::AmortizationWithCall)
        } else if b == 'T' as u8 {
            Some(Redemption::AmortizationWithPut)
        } else if b == 'L' as u8 {
            Some(Redemption::AmortizationWithPutAndCall)
        } else if b == 'P' as u8 {
            Some(Redemption::Perpetual)
        } else if b == 'Q' as u8 {
            Some(Redemption::PerpetualWithCall)
        } else if b == 'R' as u8 {
            Some(Redemption::PerpetualWithPut)
        } else if b == 'E' as u8 {
            Some(Redemption::Extendible)
        } else if b == 'X' as u8 {
            Some(Redemption::Undefined)
        } else {
            None
        }
    }

    /// Decode the attribute byte found at position `pos` of a code.
    pub fn from_byte(b: u8, pos: usize) -> (r: Result<Redemption, Error>)
        ensures
            match Redemption::spec_decode(b) {
                Some(a) => r == Ok::<Redemption, Error>(a),
                None => r == Err::<Redemption, Error>(Error::InvalidAttribute(pos, b)),
            },
    {
        if b == 'F' as u8 {
            Ok(Redemption::FixedMaturity)
        } else if b == 'G' as u8 {
            Ok(Redemption::FixedWithCall)
        } else if b == 'C' as u8 {
            Ok(Redemption::FixedWithPut)
        } else if b == 'D' as u8 {
            Ok(Redemption::FixedWithPutAndCall)
        } else if b == 'A' as u8 {
            Ok(Redemption::Amortization)
        } else if b == 'B' as u8 {
            Ok(Redemption::AmortizationWithCall)
        } else if b == 'T' as u8 {
            Ok(Redemption::AmortizationWithPut)
        } else if b == 'L' as u8 {
            Ok(Redemption::AmortizationWithPutAndCall)
        } else if b == 'P' as u8 {
            Ok(Redemption::Perpetual)
        } else if b == 'Q' as u8 {
            Ok(Redemption::PerpetualWithCall)
        } else if b == 'R' as u8 {
            Ok(Redemption::PerpetualWithPut)
        } else if b == 'E' as u8 {
            Ok(Redemption::Extendible)
        } else if b == 'X' as u8 {
            Ok(Redemption::Undefined)
        } else {
            Err(Error::InvalidAttribute(pos, b))
        }
    }

    /// The byte this value encodes to; the inverse of decoding.
    pub fn to_byte(&self) -> (r: u8)
        ensures
            r == self.spec_byte(),
    {
        match self {
            Redemption::FixedMaturity => 'F' as u8,
            Redemption::FixedWithCall => 'G' as u8,
            Redemption::FixedWithPut => 'C' as u8,
            Redemption::FixedWithPutAndCall => 'D' as u8,
            Redemption::Amortization => 'A' as u8,
            Redemption::AmortizationWithCall => 'B' as u8,
            Redemption::AmortizationWithPut => 'T' as u8,
            Redemption::AmortizationWithPutAndCall => 'L' as u8,
            Redemption::Perpetual => 'P' as u8,
            Redemption::PerpetualWithCall => 'Q' as u8,
            Redemption::PerpetualWithPut => 'R' as u8,
            Redemption::Extendible => 'E' as u8,
            Redemption::Undefined => 'X' as u8,
        }
    }

    /// Check if this value is [`Redemption::FixedMaturity`].
    pub fn is_fixed_maturity(&self) -> (r: bool)
        ensures
            r == (self is FixedMaturity),
    {
        matches!(self, Redemption::FixedMaturity)
    }

    /// Check if this value is [`Redemption::FixedWithCall`].
    pub fn is_fixed_with_call(&self) -> (r: bool)
        ensures
            r == (self is FixedWithCall),
    {
        matches!(self, Redemption::FixedWithCall)
    }

    /// Check if this value is [`Redemption::FixedWithPut`].
    pub fn is_fixed_with_put(&self) -> (r: bool)
        ensures
            r == (self is FixedWithPut),
    {
        matches!(self, Redemption::FixedWithPut)
    }

    /// Check if this value is [`Redemption::FixedWithPutAndCall`].
    pub fn is_fixed_with_put_and_call(&self) -> (r: bool)
        ensures
            r == (self is FixedWithPutAndCall),
    {
        matches!(self, Redemption::FixedWithPutAndCall)
    }

    /// Check if this value is [`Redemption::Amortization`].
    pub fn is_amortization(&self) -> (r: bool)
        ensures
            r == (self is Amortization),
    {
        matches!(self, Redemption::Amortization)
    }

    /// Check if this value is [`Redemption::AmortizationWithCall`].
    pub fn is_amortization_with_call(&self) -> (r: bool)
        ensures
            r == (self is AmortizationWithCall),
    {
        matches!(self, Redemption::AmortizationWithCall)
    }

    /// Check if this value is [`Redemption::AmortizationWithPut`].
    pub fn is_amortization_with_put(&self) -> (r: bool)
        ensures
            r == (self is AmortizationWithPut),
    {
        matches!(self, Redemption::AmortizationWithPut)
    }

    /// Check if this value is [`Redemption::AmortizationWithPutAndCall`].
    pub fn is_amortization_with_put_and_call(&self) -> (r: bool)
        ensures
            r == (self is AmortizationWithPutAndCall),
    {
        matches!(self, Redemption::AmortizationWithPutAndCall)
    }

    /// Check if this value is [`Redemption::Perpetual`].
    pub fn is_perpetual(&self) -> (r: bool)
        ensures
            r == (self is Perpetual),
    {
        matches!(self, Redemption::Perpetual)
    }

    /// Check if this value is [`Redemption::PerpetualWithCall`].
    pub fn is_perpetual_with_call(&self) -> (r: bool)
        ensures
            r == (self is PerpetualWithCall),
    {
        matches!(self, Redemption::PerpetualWithCall)
    }

    /// Check if this value is [`Redemption::PerpetualWithPut`].
    pub fn is_perpetual_with_put(&self) -> (r: bool)
        ensures
            r == (self is PerpetualWithPut),
    {
        matches!(self, Redemption::PerpetualWithPut)
    }

    /// Check if this value is [`Redemption::Extendible`].
    pub fn is_extendible(&self) -> (r: bool)
        ensures
            r == (self is Extendible),
    {
        matches!(self, Redemption::Extendible)
    }

    /// Check if this value is [`Redemption::Undefined`].
    pub fn is_undefined(&self) -> (r: bool)
        ensures
            r == (self is Undefined),
    {
        matches!(self, Redemption::Undefined)
    }
}

/// Type of interest.
#[derive(Clone, Copy, Debug, Eq, Hash, Ord, PartialEq, PartialOrd, Structural)]
pub enum InterestInKind {
    /// `F`: Fixed rate.
    Fixed,
    /// `Z`: Zero rate/discounted.
    Zero,
    /// `V`: Variable.
    Variable,
    /// `K`: Payment in kind.
    InKind,
    /// `X`: Not applicable or undefined.
    Undefined,
}

impl InterestInKind {
    /// The code character assigned to this value.
    pub open spec fn spec_byte(self) -> u8 {
        match self {
            InterestInKind::Fixed => 'F' as u8,
            InterestInKind::Zero => 'Z' as u8,
            InterestInKind::Variable => 'V' as u8,
            InterestInKind::InKind => 'K' as u8,
            InterestInKind::Undefined => 'X' as u8,
        }
    }

    /// The member encoded by `b`, if `b` lies in this attribute's alphabet.
    pub open spec fn spec_decode(b: u8) -> Option<InterestInKind> {
        if b == 'F' as u8 {
            Some(InterestInKind::Fixed)
        } else if b == 'Z' as u8 {
            Some(InterestInKind::Zero)
        } else if b == 'V' as u8 {
            Some(InterestInKind::Variable)
        } else if b == 'K' as u8 {
            Some(InterestInKind::InKind)
        } else if b == 'X' as u8 {
            Some(InterestInKind::Undefined)
        } else {
            None
        }
    }

    /// Decode the attribute byte found at position `pos` of a code.
    pub fn from_byte(b: u8, pos: usize) -> (r: Result<InterestInKind, Error>)
        ensures
            match InterestInKind::spec_decode(b) {
                Some(a) => r == Ok::<InterestInKind, Error>(a),
                None => r == Err::<InterestInKind, Error>(Error::InvalidAttribute(pos, b)),
            },
    {
        if b == 'F' as u8 {
            Ok(InterestInKind::Fixed)
        } else if b == 'Z' as u8 {
            Ok(InterestInKind::Zero)
        } else if b == 'V' as u8 {
            Ok(InterestInKind::Variable)
        } else if b == 'K' as u8 {
            Ok(InterestInKind::InKind)
        } else if b == 'X' as u8 {
            Ok(InterestInKind::Undefined)
        } else {
            Err(Error::InvalidAttribute(pos, b))
        }
    }

    /// The byte this value encodes to; the inverse of decoding.
    pub fn to_byte(&self) -> (r: u8)
        ensures
            r == self.spec_byte(),
    {
        match self {
            InterestInKind::Fixed => 'F' as u8,
            InterestInKind::Zero => 'Z' as u8,
            InterestInKind::Variable => 'V' as u8,
            InterestInKind::InKind => 'K' as u8,
            InterestInKind::Undefined => 'X' as u8,
        }
    }

    /// Check if this value is [`InterestInKind::Fixed`].
    pub fn is_fixed(&self) -> (r: bool)
        ensures
            r == (self is Fixed),
    {
        matches!(self, InterestInKind::Fixed)
    }

    /// Check if this value is [`InterestInKind::Zero`].
    pub fn is_zero(&self) -> (r: bool)
        ensures
            r == (self is Zero),
    {
        matches!(self, InterestInKind::Zero)
    }

    /// Check if this value is [`InterestInKind::Variable`].
    pub fn is_variable(&self) -> (r: bool)
        ensures
            r == (self is Variable),
    {
        matches!(self, InterestInKind::Variable)
    }

    /// Check if this value is [`InterestInKind::InKind`].
    pub fn is_in_kind(&self) -> (r: bool)
        ensures
            r == (self is InKind),
    {
        matches!(self, InterestInKind::InKind)
    }

    /// Check if this value is [`InterestInKind::Undefined`].
    pub fn is_undefined(&self) -> (r: bool)
        ensures
            r == (self is Undefined),
    {
        matches!(self, InterestInKind::Undefined)
    }
}

/// Type of structured instrument with capital protection.
#[derive(Clone, Copy, Debug, Eq, Hash, Ord, PartialEq, PartialOrd, Structural)]
pub enum ProtectedKind {
    /// `A`: Capital protection certificate with participation.
    Participation,
    /// `B`: Capital protection convertible certificate.
    Convertible,
    /// `C`: Barrier capital protection certificate.
    Barrier,
    /// `D`: Capital protection certificate with coupons.
    Coupons,
    /// `M`: Others (miscellaneous).
    Other,
    /// `X`: Not applicable or undefined.
    Undefined,
}

impl ProtectedKind {
    /// The code character assigned to this value.
    pub open spec fn spec_byte(self) -> u8 {
        match self {
            ProtectedKind::Participation => 'A' as u8,
            ProtectedKind::Convertible => 'B' as u8,
            ProtectedKind::Barrier => 'C' as u8,
            ProtectedKind::Coupons => 'D' as u8,
            ProtectedKind::Other => 'M' as u8,
            ProtectedKind::Undefined => 'X' as u8,
        }
    }

    /// The member encoded by `b`, if `b` lies in this attribute's alphabet.
    pub open spec fn spec_decode(b: u8) -> Option<ProtectedKind> {
        if b == 'A' as u8 {
            Some(ProtectedKind::Participation)
        } else if b == 'B' as u8 {
            Some(ProtectedKind::Convertible)
        } else if b == 'C' as u8 {
            Some(ProtectedKind::Barrier)
        } else if b == 'D' as u8 {
            Some(ProtectedKind::Coupons)
        } else if b == 'M' as u8 {
            Some(ProtectedKind::Other)
        } else if b == 'X' as u8 {
            Some(ProtectedKind::Undefined)
        } else {
            None
        }
    }

    /// Decode the attribute byte found at position `pos` of a code.
    pub fn from_byte(b: u8, pos: usize) -> (r: Result<ProtectedKind, Error>)
        ensures
            match ProtectedKind::spec_decode(b) {
                Some(a) => r == Ok::<ProtectedKind, Error>(a),
                None => r == Err::<ProtectedKind, Error>(Error::InvalidAttribute(pos, b)),
            },
    {
        if b == 'A' as u8 {
            Ok(ProtectedKind::Participation)
        } else if b == 'B' as u8 {
            Ok(ProtectedKind::Convertible)
        } else if b == 'C' as u8 {
            Ok(ProtectedKind::Barrier)
        } else if b == 'D' as u8 {
            Ok(ProtectedKind::Coupons)
        } else if b == 'M' as u8 {
            Ok(ProtectedKind::Other)
        } else if b == 'X' as u8 {
            Ok(ProtectedKind::Undefined)
        } else {
            Err(Error::InvalidAttribute(pos, b))
        }
    }

    /// The byte this value encodes to; the inverse of decoding.
    pub fn to_byte(&self) -> (r: u8)
        ensures
            r == self.spec_byte(),
    {
        match self {
            ProtectedKind::Participation => 'A' as u8,
            ProtectedKind::Convertible => 'B' as u8,
            ProtectedKind::Barrier => 'C' as u8,
            ProtectedKind::Coupons => 'D' as u8,
            ProtectedKind::Other => 'M' as u8,
            ProtectedKind::Undefined => 'X' as u8,
        }
    }

    /// Check if this value is [`ProtectedKind::Participation`].
    pub fn is_participation(&self) -> (r: bool)
        ensures
            r == (self is Participation),
    {
        matches!(self, ProtectedKind::Participation)
    }

    /// Check if this value is [`ProtectedKind::Convertible`].
    pub fn is_convertible(&self) -> (r: bool)
        ensures
            r == (self is Convertible),
    {
        matches!(self, ProtectedKind::Convertible)
    }

    /// Check if this value is [`ProtectedKind::Barrier`].
    pub fn is_barrier(&self) -> (r: bool)
        ensures
            r == (self is Barrier),
    {
        matches!(self, ProtectedKind::Barrier)
    }

    /// Check if this value is [`ProtectedKind::Coupons`].
    pub fn is_coupons(&self) -> (r: bool)
        ensures
            r == (self is Coupons),
    {
        matches!(self, ProtectedKind::Coupons)
    }

    /// Check if this value is [`ProtectedKind::Other`].
    pub fn is_other(&self) -> (r: bool)
        ensures
            r == (self is Other),
    {
        matches!(self, ProtectedKind::Other)
    }

    /// Check if this value is [`ProtectedKind::Undefined`].
    pub fn is_undefined(&self) -> (r: bool)
        ensures
            r == (self is Undefined),
    {
        matches!(self, ProtectedKind::Undefined)
    }
}

/// Distribution.
#[derive(Clone, Copy, Debug, Eq, Hash, Ord, PartialEq, PartialOrd, Structural)]
pub enum Distribution {
    /// `F`: Fixed interest payments.
    Fixed,
    /// `D`: Dividend payments.
    Dividend,
    /// `V`: Variable interest payments.
    Variable,
    /// `Y`: No payments.
    NoPayments,
    /// `M`: Others (miscellaneous).
    Other,
    /// `X`: Not applicable or undefined.
    Undefined,
}

impl Distribution {
    /// The code character assigned to this value.
    pub open spec fn spec_byte(self) -> u8 {
        match self {
            Distribution::Fixed => 'F' as u8,
            Distribution::Dividend => 'D' as u8,
            Distribution::Variable => 'V' as u8,
            Distribution::NoPayments => 'Y' as u8,
            Distribution::Other => 'M' as u8,
            Distribution::Undefined => 'X' as u8,
        }
    }

    /// The member encoded by `b`, if `b` lies in this attribute's alphabet.
    pub open spec fn spec_decode(b: u8) -> Option<Distribution> {
        if b == 'F' as u8 {
            Some(Distribution::Fixed)
        } else if b == 'D' as u8 {
            Some(Distribution::Dividend)
        } else if b == 'V' as u8 {
            Some(Distribution::Variable)
        } else if b == 'Y' as u8 {
            Some(Distribution::NoPayments)
        } else if b == 'M' as u8 {
            Some(Distribution::Other)
        } else if b == 'X' as u8 {
            Some(Distribution::Undefined)
        } else {
            None
        }
    }

    /// Decode the attribute byte found at position `pos` of a code.
    pub fn from_byte(b: u8, pos: usize) -> (r: Result<Distribution, Error>)
        ensures
            match Distribution::spec_decode(b) {
                Some(a) => r == Ok::<Distribution, Error>(a),
                None => r == Err::<Distribution, Error>(Error::InvalidAttribute(pos, b)),
            },
    {
        if b == 'F' as u8 {
            Ok(Distribution::Fixed)
        } else if b == 'D' as u8 {
            Ok(Distribution::Dividend)
        } else if b == 'V' as u8 {
            Ok(Distribution::Variable)
        } else if b == 'Y' as u8 {
            Ok(Distribution::NoPayments)
        } else if b == 'M' as u8 {
            Ok(Distribution::Other)
        } else if b == 'X' as u8 {
            Ok(Distribution::Undefined)
        } else {
            Err(Error::InvalidAttribute(pos, b))
        }
    }

    /// The byte this value encodes to; the inverse of decoding.
    pub fn to_byte(&self) -> (r: u8)
        ensures
            r == self.spec_byte(),
    {
        match self {
            Distribution::Fixed => 'F' as u8,
            Distribution::Dividend => 'D' as u8,
            Distribution::Variable => 'V' as u8,
            Distribution::NoPayments => 'Y' as u8,
            Distribution::Other => 'M' as u8,
            Distribution::Undefined => 'X' as u8,
        }
    }

    /// Check if this value is [`Distribution::Fixed`].
    pub fn is_fixed(&self) -> (r: bool)
        ensures
            r == (self is Fixed),
    {
        matches!(self, Distribution::Fixed)
    }

    /// Check if this value is [`Distribution::Dividend`].
    pub fn is_dividend(&self) -> (r: bool)
        ensures
            r == (self is Dividend),
    {
        matches!(self, Distribution::Dividend)
    }

    /// Check if this value is [`Distribution::Variable`].
    pub fn is_variable(&self) -> (r: bool)
        ensures
            r == (self is Variable),
    {
        matches!(self, Distribution::Variable)
    }

    /// Check if this value is [`Distribution::NoPayments`].
    pub fn is_no_payments(&self) -> (r: bool)
        ensures
            r == (self is NoPayments),
    {
        matches!(self, Distribution::NoPayments)
    }

    /// Check if this value is [`Distribution::Other`].
    pub fn is_other(&self) -> (r: bool)
        ensures
            r == (self is Other),
    {
        matches!(self, Distribution::Other)
    }

    /// Check if this value is [`Distribution::Undefined`].
    pub fn is_undefined(&self) -> (r: bool)
        ensures
            r == (self is Undefined),
    {
        matches!(self, Distribution::Undefined)
    }
}

/// Repayment.
#[derive(Clone, Copy, Debug, Eq, Hash, Ord, PartialEq, PartialOrd, Structural)]
pub enum ProtectedRepayment {
    /// `F`: Fixed cash repayment.
    Fixed,
    /// `V`: Variable cash repayment.
    Variable,
    /// `M`: Others (miscellaneous).
    Other,
    /// `X`: Not applicable or undefined.
    Undefined,
}

impl ProtectedRepayment {
    /// The code character assigned to this value.
    pub open spec fn spec_byte(self) -> u8 {
        match self {
            ProtectedRepayment::Fixed => 'F' as u8,
            ProtectedRepayment::Variable => 'V' as u8,
            ProtectedRepayment::Other => 'M' as u8,
            ProtectedRepayment::Undefined => 'X' as u8,
        }
    }

    /// The member encoded by `b`, if `b` lies in this attribute's alphabet.
    pub open spec fn spec_decode(b: u8) -> Option<ProtectedRepayment> {
        if b == 'F' as u8 {
            Some(ProtectedRepayment::Fixed)
        } else if b == 'V' as u8 {
            Some(ProtectedRepayment::Variable)
        } else if b == 'M' as u8 {
            Some(ProtectedRepayment::Other)
        } else if b == 'X' as u8 {
            Some(ProtectedRepayment::Undefined)
        } else {
            None
        }
    }

    /// Decode the attribute byte found at position `pos` of a code.
    pub fn from_byte(b: u8, pos: usize) -> (r: Result<ProtectedRepayment, Error>)
        ensures
            match ProtectedRepayment::spec_decode(b) {
                Some(a) => r == Ok::<ProtectedRepayment, Error>(a),
                None => r == Err::<ProtectedRepayment, Error>(Error::InvalidAttribute(pos, b)),
            },
    {
        if b == 'F' as u8 {
            Ok(ProtectedRepayment::Fixed)
        } else if b == 'V' as u8 {
            Ok(ProtectedRepayment::Variable)
        } else if b == 'M' as u8 {
            Ok(ProtectedRepayment::Other)
        } else if b == 'X' as u8 {
            Ok(ProtectedRepayment::Undefined)
        } else {
            Err(Error::InvalidAttribute(pos, b))
        }
    }

    /// The byte this value encodes to; the inverse of decoding.
    pub fn to_byte(&self) -> (r: u8)
        ensures
            r == self.spec_byte(),
    {
        match self {
            ProtectedRepayment::Fixed => 'F' as u8,
            ProtectedRepayment::Variable => 'V' as u8,
            ProtectedRepayment::Other => 'M' as u8,
            ProtectedRepayment::Undefined => 'X' as u8,
        }
    }

    /// Check if this value is [`ProtectedRepayment::Fixed`].
    pub fn is_fixed(&self) -> (r: bool)
        ensures
            r == (self is Fixed),
    {
        matches!(self, ProtectedRepayment::Fixed)
    }

    /// Check if this value is [`ProtectedRepayment::Variable`].
    pub fn is_variable(&self) -> (r: bool)
        ensures
            r == (self is Variable),
    {
        matches!(self, ProtectedRepayment::Variable)
    }

    /// Check if this value is [`ProtectedRepayment::Other`].
    pub fn is_other(&self) -> (r: bool)
        ensures
            r == (self is Other),
    {
        matches!(self, ProtectedRepayment::Other)
    }

    /// Check if this value is [`ProtectedRepayment::Undefined`].
    pub fn is_undefined(&self) -> (r: bool)
        ensures
            r == (self is Undefined),
    {
        matches!(self, ProtectedRepayment::Undefined)
    }
}

/// Underlying assets.
#[derive(Clone, Copy, Debug, Eq, Hash, Ord, PartialEq, PartialOrd, Structural)]
pub enum Underlying {
    /// `B`: Baskets.
    Basket,
    /// `S`: Equities.
    Equity,
    /// `D`: Debt instruments.
    Debt,
    /// `T`: Commodities.
    Commodity,
    /// `C`: Currencies (specified exchange rate).
    Currency,
    /// `I`: Indices (the performance of an index).
    Index,
    /// `N`: Interest rates (specified amount based on the future level of interest rates).
    InterestRate,
    /// `M`: Other (miscellaneous).
    Other,
    /// `X`: Not applicable or undefined.
    Undefined,
}

impl Underlying {
    /// The code character assigned to this value.
    pub open spec fn spec_byte(self) -> u8 {
        match self {
            Underlying::Basket => 'B' as u8,
            Underlying::Equity => 'S' as u8,
            Underlying::Debt => 'D' as u8,
            Underlying::Commodity => 'T' as u8,
            Underlying::Currency => 'C' as u8,
            Underlying::Index => 'I' as u8,
            Underlying::InterestRate => 'N' as u8,
            Underlying::Other => 'M' as u8,
            Underlying::Undefined => 'X' as u8,
        }
    }

    /// The member encoded by `b`, if `b` lies in this attribute's alphabet.
    pub open spec fn spec_decode(b: u8) -> Option<Underlying> {
        if b == 'B' as u8 {
            Some(Underlying::Basket)
        } else if b == 'S' as u8 {
            Some(Underlying::Equity)
        } else if b == 'D' as u8 {
            Some(Underlying::Debt)
        } else if b == 'T' as u8 {
            Some(Underlying::Commodity)
        } else if b == 'C' as u8 {
            Some(Underlying::Currency)
        } else if b == 'I' as u8 {
            Some(Underlying::Index)
        } else if b == 'N' as u8 {
            Some(Underlying::InterestRate)
        } else if b == 'M' as u8 {
            Some(Underlying::Other)
        } else if b == 'X' as u8 {
            Some(Underlying::Undefined)
        } else {
            None
        }
    }

    /// Decode the attribute byte found at position `pos` of a code.
    pub fn from_byte(b: u8, pos: usize) -> (r: Result<Underlying, Error>)
        ensures
            match Underlying::spec_decode(b) {
                Some(a) => r == Ok::<Underlying, Error>(a),
                None => r == Err::<Underlying, Error>(Error::InvalidAttribute(pos, b)),
            },
    {
        if b == 'B' as u8 {
            Ok(Underlying::Basket)
        } else if b == 'S' as u8 {
            Ok(Underlying::Equity)
        } else if b == 'D' as u8 {
            Ok(Underlying::Debt)
        } else if b == 'T' as u8 {
            Ok(Underlying::Commodity)
        } else if b == 'C' as u8 {
            Ok(Underlying::Currency)
        } else if b == 'I' as u8 {
            Ok(Underlying::Index)
        } else if b == 'N' as u8 {
            Ok(Underlying::InterestRate)
        } else if b == 'M' as u8 {
            Ok(Underlying::Other)
        } else if b == 'X' as u8 {
            Ok(Underlying::Undefined)
        } else {
            Err(Error::InvalidAttribute(pos, b))
        }
    }

    /// The byte this value encodes to; the inverse of decoding.
    pub fn to_byte(&self) -> (r: u8)
        ensures
            r == self.spec_byte(),
    {
        match self {
            Underlying::Basket => 'B' as u8,
            Underlying::Equity => 'S' as u8,
            Underlying::Debt => 'D' as u8,
            Underlying::Commodity => 'T' as u8,
            Underlying::Currency => 'C' as u8,
            Underlying::Index => 'I' as u8,
            Underlying::InterestRate => 'N' as u8,
            Underlying::Other => 'M' as u8,
            Underlying::Undefined => 'X' as u8,
        }
    }

    /// Check if this value is [`Underlying::Basket`].
    pub fn is_basket(&self) -> (r: bool)
        ensures
            r == (self is Basket),
    {
        matches!(self, Underlying::Basket)
    }

    /// Check if this value is [`Underlying::Equity`].
    pub fn is_equity(&self) -> (r: bool)
        ensures
            r == (self is Equity),
    {
        matches!(self, Underlying::Equity)
    }

    /// Check if this value is [`Underlying::Debt`].
    pub fn is_debt(&self) -> (r: bool)
        ensures
            r == (self is Debt),
    {
        matches!(self, Underlying::Debt)
    }

    /// Check if this value is [`Underlying::Commodity`].
    pub fn is_commodity(&self) -> (r: bool)
        ensures
            r == (self is Commodity),
    {
        matches!(self, Underlying::Commodity)
    }

    /// Check if this value is [`Underlying::Currency`].
    pub fn is_currency(&self) -> (r: bool)
        ensures
            r == (self is Currency),
    {
        matches!(self, Underlying::Currency)
    }

    /// Check if this value is [`Underlying::Index`].
    pub fn is_index(&self) -> (r: bool)
        ensures
            r == (self is Index),
    {
        matches!(self, Underlying::Index)
    }

    /// Check if this value is [`Underlying::InterestRate`].
    pub fn is_interest_rate(&self) -> (r: bool)
        ensures
            r == (self is InterestRate),
    {
        matches!(self, Underlying::InterestRate)
    }

    /// Check if this value is [`Underlying::Other`].
    pub fn is_other(&self) -> (r: bool)
        ensures
            r == (self is Other),
    {
        matches!(self, Underlying::Other)
    }

    /// Check if this value is [`Underlying::Undefined`].
    pub fn is_undefined(&self) -> (r: bool)
        ensures
            r == (self is Undefined),
    {
        matches!(self, Underlying::Undefined)
    }
}

/// Type of structured instrument without protection.
#[derive(Clone, Copy, Debug, Eq, Hash, Ord, PartialEq, PartialOrd, Structural)]
pub enum UnprotectedKind {
    /// `A`: Discount certificate.
    Discount,
    /// `B`: Barrier discount certificate.
    BarrierDiscount,
    /// `C`: Reverse convertible.
    Reverse,
    /// `D`: Barrier reverse convertible.
    BarrierReverse,
    /// `E`: Express certificate.
    Express,
    /// `M`: Others (miscellaneous).
    Other,
    /// `X`: Not applicable or undefined.
    Undefined,
}

impl UnprotectedKind {
    /// The code character assigned to this value.
    pub open spec fn spec_byte(self) -> u8 {
        match self {
            UnprotectedKind::Discount => 'A' as u8,
            UnprotectedKind::BarrierDiscount => 'B' as u8,
            UnprotectedKind::Reverse => 'C' as u8,
            UnprotectedKind::BarrierReverse => 'D' as u8,
            UnprotectedKind::Express => 'E' as u8,
            UnprotectedKind::Other => 'M' as u8,
            UnprotectedKind::Undefined => 'X' as u8,
        }
    }

    /// The member encoded by `b`, if `b` lies in this attribute's alphabet.
    pub open spec fn spec_decode(b: u8) -> Option<UnprotectedKind> {
        if b == 'A' as u8 {
            Some(UnprotectedKind::Discount)
        } else if b == 'B' as u8 {
            Some(UnprotectedKind::BarrierDiscount)
        } else if b == 'C' as u8 {
            Some(UnprotectedKind::Reverse)
        } else if b == 'D' as u8 {
            Some(UnprotectedKind::BarrierReverse)
        } else if b == 'E' as u8 {
            Some(UnprotectedKind::Express)
        } else if b == 'M' as u8 {
            Some(UnprotectedKind::Other)
        } else if b == 'X' as u8 {
            Some(UnprotectedKind::Undefined)
        } else {
            None
        }
    }

    /// Decode the attribute byte found at position `pos` of a code.
    pub fn from_byte(b: u8, pos: usize) -> (r: Result<UnprotectedKind, Error>)
        ensures
            match UnprotectedKind::spec_decode(b) {
                Some(a) => r == Ok::<UnprotectedKind, Error>(a),
                None => r == Err::<UnprotectedKind, Error>(Error::InvalidAttribute(pos, b)),
            },
    {
        if b == 'A' as u8 {
            Ok(UnprotectedKind::Discount)
        } else if b == 'B' as u8 {
            Ok(UnprotectedKind::BarrierDiscount)
        } else if b == 'C' as u8 {
            Ok(UnprotectedKind::Reverse)
        } else if b == 'D' as u8 {
            Ok(UnprotectedKind::BarrierReverse)
        } else if b == 'E' as u8 {
            Ok(UnprotectedKind::Express)
        } else if b == 'M' as u8 {
            Ok(UnprotectedKind::Other)
        } else if b == 'X' as u8 {
            Ok(UnprotectedKind::Undefined)
        } else {
            Err(Error::InvalidAttribute(pos, b))
        }
    }

    /// The byte this value encodes to; the inverse of decoding.
    pub fn to_byte(&self) -> (r: u8)
        ensures
            r == self.spec_byte(),
    {
        match self {
            UnprotectedKind::Discount => 'A' as u8,
            UnprotectedKind::BarrierDiscount => 'B' as u8,
            UnprotectedKind::Reverse => 'C' as u8,
            UnprotectedKind::BarrierReverse => 'D' as u8,
            UnprotectedKind::Express => 'E' as u8,
            UnprotectedKind::Other => 'M' as u8,
            UnprotectedKind::Undefined => 'X' as u8,
        }
    }

    /// Check if this value is [`UnprotectedKind::Discount`].
    pub fn is_discount(&self) -> (r: bool)
        ensures
            r == (self is Discount),
    {
        matches!(self, UnprotectedKind::Discount)
    }

    /// Check if this value is [`UnprotectedKind::BarrierDiscount`].
    pub fn is_barrier_discount(&self) -> (r: bool)
        ensures
            r == (self is BarrierDiscount),
    {
        matches!(self, UnprotectedKind::BarrierDiscount)
    }

    /// Check if this value is [`UnprotectedKind::Reverse`].
    pub fn is_reverse(&self) -> (r: bool)
        ensures
            r == (self is Reverse),
    {
        matches!(self, UnprotectedKind::Reverse)
    }

    /// Check if this value is [`UnprotectedKind::BarrierReverse`].
    pub fn is_barrier_reverse(&self) -> (r: bool)
        ensures
            r == (self is BarrierReverse),
    {
        matches!(self, UnprotectedKind::BarrierReverse)
    }

    /// Check if this value is [`UnprotectedKind::Express`].
    pub fn is_express(&self) -> (r: bool)
        ensures
            r == (self is Express),
    {
        matches!(self, UnprotectedKind::Express)
    }

    /// Check if this value is [`UnprotectedKind::Other`].
    pub fn is_other(&self) -> (r: bool)
        ensures
            r == (self is Other),
    {
        matches!(self, UnprotectedKind::Other)
    }

    /// Check if this value is [`UnprotectedKind::Undefined`].
    pub fn is_undefined(&self) -> (r: bool)
        ensures
            r == (self is Undefined),
    {
        matches!(self, UnprotectedKind::Undefined)
    }
}

/// Repayment.
#[derive(Clone, Copy, Debug, Eq, Hash, Ord, PartialEq, PartialOrd, Structural)]
pub enum UnprotectedRepayment {
    /// `R`: Repayment in cash (depending on the underlying, if the barrier is not breached).
    Cash,
    /// `S`: Repayment in assets.
    Assets,
    /// `C`: Repayment in assets and cash.
    AssetsAndCash,
    /// `T`: Repayment in assets or cash.
    AssetsOrCash,
    /// `M`: Others (miscellaneous).
    Other,
    /// `X`: Not applicable or undefined.
    Undefined,
}

impl UnprotectedRepayment {
    /// The code character assigned to this value.
    pub open spec fn spec_byte(self) -> u8 {
        match self {
            UnprotectedRepayment::Cash => 'R' as u8,
            UnprotectedRepayment::Assets => 'S' as u8,
            UnprotectedRepayment::AssetsAndCash => 'C' as u8,
            UnprotectedRepayment::AssetsOrCash => 'T' as u8,
            UnprotectedRepayment::Other => 'M' as u8,
            UnprotectedRepayment::Undefined => 'X' as u8,
        }
    }

    /// The member encoded by `b`, if `b` lies in this attribute's alphabet.
    pub open spec fn spec_decode(b: u8) -> Option<UnprotectedRepayment> {
        if b == 'R' as u8 {
            Some(UnprotectedRepayment::Cash)
        } else if b == 'S' as u8 {
            Some(UnprotectedRepayment::Assets)
        } else if b == 'C' as u8 {
            Some(UnprotectedRepayment::AssetsAndCash)
        } else if b == 'T' as u8 {
            Some(UnprotectedRepayment::AssetsOrCash)
        } else if b == 'M' as u8 {
            Some(UnprotectedRepayment::Other)
        } else if b == 'X' as u8 {
            Some(UnprotectedRepayment::Undefined)
        } else {
            None
        }
    }

    /// Decode the attribute byte found at position `pos` of a code.
    pub fn from_byte(b: u8, pos: usize) -> (r: Result<UnprotectedRepayment, Error>)
        ensures
            match UnprotectedRepayment::spec_decode(b) {
                Some(a) => r == Ok::<UnprotectedRepayment, Error>(a),
                None => r == Err::<UnprotectedRepayment, Error>(Error::InvalidAttribute(pos, b)),
            },
    {
        if b == 'R' as u8 {
            Ok(UnprotectedRepayment::Cash)
        } else if b == 'S' as u8 {
            Ok(UnprotectedRepayment::Assets)
        } else if b == 'C' as u8 {
            Ok(UnprotectedRepayment::AssetsAndCash)
        } else if b == 'T' as u8 {
            Ok(UnprotectedRepayment::AssetsOrCash)
        } else if b == 'M' as u8 {
            Ok(UnprotectedRepayment::Other)
        } else if b == 'X' as u8 {
            Ok(UnprotectedRepayment::Undefined)
        } else {
            Err(Error::InvalidAttribute(pos, b))
        }
    }

    /// The byte this value encodes to; the inverse of decoding.
    pub fn to_byte(&self) -> (r: u8)
        ensures
            r == self.spec_byte(),
    {
        match self {
            UnprotectedRepayment::Cash => 'R' as u8,
            UnprotectedRepayment::Assets => 'S' as u8,
            UnprotectedRepayment::AssetsAndCash => 'C' as u8,
            UnprotectedRepayment::AssetsOrCash => 'T' as u8,
            UnprotectedRepayment::Other => 'M' as u8,
            UnprotectedRepayment::Undefined => 'X' as u8,
        }
    }

    /// Check if this value is [`UnprotectedRepayment::Cash`].
    pub fn is_cash(&self) -> (r: bool)
        ensures
            r == (self is Cash),
    {
        matches!(self, UnprotectedRepayment::Cash)
    }

    /// Check if this value is [`UnprotectedRepayment::Assets`].
    pub fn is_assets(&self) -> (r: bool)
        ensures
            r == (self is Assets),
    {
        matches!(self, UnprotectedRepayment::Assets)
    }

    /// Check if this value is [`UnprotectedRepayment::AssetsAndCash`].
    pub fn is_assets_and_cash(&self) -> (r: bool)
        ensures
            r == (self is AssetsAndCash),
    {
        matches!(self, UnprotectedRepayment::AssetsAndCash)
    }

    /// Check if this value is [`UnprotectedRepayment::AssetsOrCash`].
    pub fn is_assets_or_cash(&self) -> (r: bool)
        ensures
            r == (self is AssetsOrCash),
    {
        matches!(self, UnprotectedRepayment::AssetsOrCash)
    }

    /// Check if this value is [`UnprotectedRepayment::Other`].
    pub fn is_other(&self) -> (r: bool)
        ensures
            r == (self is Other),
    {
        matches!(self, UnprotectedRepayment::Other)
    }

    /// Check if this value is [`UnprotectedRepayment::Undefined`].
    pub fn is_undefined(&self) -> (r: bool)
        ensures
            r == (self is Undefined),
    {
        matches!(self, UnprotectedRepayment::Undefined)
    }
}

/// Type of interest.
#[derive(Clone, Copy, Debug, Eq, Hash, Ord, PartialEq, PartialOrd, Structural)]
pub enum Interest {
    /// `F`: Fixed rate.
    Fixed,
    /// `Z`: Zero rate/discounted.
    Zero,
    /// `V`: Variable rate.
    Variable,
    /// `X`: Not applicable or undefined.
    Undefined,
}

impl Interest {
    /// The code character assigned to this value.
    pub open spec fn spec_byte(self) -> u8 {
        match self {
            Interest::Fixed => 'F' as u8,
            Interest::Zero => 'Z' as u8,
            Interest::Variable => 'V' as u8,
            Interest::Undefined => 'X' as u8,
        }
    }

    /// The member encoded by `b`, if `b` lies in this attribute's alphabet.
    pub open spec fn spec_decode(b: u8) -> Option<Interest> {
        if b == 'F' as u8 {
            Some(Interest::Fixed)
        } else if b == 'Z' as u8 {
            Some(Interest::Zero)
        } else if b == 'V' as u8 {
            Some(Interest::Variable)
        } else if b == 'X' as u8 {
            Some(Interest::Undefined)
        } else {
            None
        }
    }

    /// Decode the attribute byte found at position `pos` of a code.
    pub fn from_byte(b: u8, pos: usize) -> (r: Result<Interest, Error>)
        ensures
            match Interest::spec_decode(b) {
                Some(a) => r == Ok::<Interest, Error>(a),
                None => r == Err::<Interest, Error>(Error::InvalidAttribute(pos, b)),
            },
    {
        if b == 'F' as u8 {
            Ok(Interest::Fixed)
        } else if b == 'Z' as u8 {
            Ok(Interest::Zero)
        } else if b == 'V' as u8 {
            Ok(Interest::Variable)
        } else if b == 'X' as u8 {
            Ok(Interest::Undefined)
        } else {
            Err(Error::InvalidAttribute(pos, b))
        }
    }

    /// The byte this value encodes to; the inverse of decoding.
    pub fn to_byte(&self) -> (r: u8)
        ensures
            r == self.spec_byte(),
    {
        match self {
            Interest::Fixed => 'F' as u8,
            Interest::Zero => 'Z' as u8,
            Interest::Variable => 'V' as u8,
            Interest::Undefined => 'X' as u8,
        }
    }

    /// Check if this value is [`Interest::Fixed`].
    pub fn is_fixed(&self) -> (r: bool)
        ensures
            r == (self is Fixed),
    {
        matches!(self, Interest::Fixed)
    }

    /// Check if this value is [`Interest::Zero`].
    pub fn is_zero(&self) -> (r: bool)
        ensures
            r == (self is Zero),
    {
        matches!(self, Interest::Zero)
    }

    /// Check if this value is [`Interest::Variable`].
    pub fn is_variable(&self) -> (r: bool)
        ensures
            r == (self is Variable),
    {
        matches!(self, Interest::Variable)
    }

    /// Check if this value is [`Interest::Undefined`].
    pub fn is_undefined(&self) -> (r: bool)
        ensures
            r == (self is Undefined),
    {
        matches!(self, Interest::Undefined)
    }
}

/// Instrument dependency.
#[derive(Clone, Copy, Debug, Eq, Hash, Ord, PartialEq, PartialOrd, Structural)]
pub enum Dependency {
    /// `B`: Bonds.
    Bonds,
    /// `C`: Convertible bonds.
    Convertible,
    /// `W`: Bonds with warrants attached.
    WarrantsAttached,
    /// `T`: Medium-term notes.
    MediumTerm,
    /// `Y`: Money market instruments.
    MoneyMarket,
    /// `G`: Mortgage-backed securities.
    MortgageBacked,
    /// `A`: Asset-backed securities.
    AssetBacked,
    /// `N`: Municipal bonds.
    Municipal,
    /// `M`: Others (miscellaneous).
    Other,
    /// `X`: Not applicable or undefined.
    Undefined,
}

impl Dependency {
    /// The code character assigned to this value.
    pub open spec fn spec_byte(self) -> u8 {
        match self {
            Dependency::Bonds => 'B' as u8,
            Dependency::Convertible => 'C' as u8,
            Dependency::WarrantsAttached => 'W' as u8,
            Dependency::MediumTerm => 'T' as u8,
            Dependency::MoneyMarket => 'Y' as u8,
            Dependency::MortgageBacked => 'G' as u8,
            Dependency::AssetBacked => 'A' as u8,
            Dependency::Municipal => 'N' as u8,
            Dependency::Other => 'M' as u8,
            Dependency::Undefined => 'X' as u8,
        }
    }

    /// The member encoded by `b`, if `b` lies in this attribute's alphabet.
    pub open spec fn spec_decode(b: u8) -> Option<Dependency> {
        if b == 'B' as u8 {
            Some(Dependency::Bonds)
        } else if b == 'C' as u8 {
            Some(Dependency::Convertible)
        } else if b == 'W' as u8 {
            Some(Dependency::WarrantsAttached)
        } else if b == 'T' as u8 {
            Some(Dependency::MediumTerm)
        } else if b == 'Y' as u8 {
            Some(Dependency::MoneyMarket)
        } else if b == 'G' as u8 {
            Some(Dependency::MortgageBacked)
        } else if b == 'A' as u8 {
            Some(Dependency::AssetBacked)
        } else if b == 'N' as u8 {
            Some(Dependency::Municipal)
        } else if b == 'M' as u8 {
            Some(Dependency::Other)
        } else if b == 'X' as u8 {
            Some(Dependency::Undefined)
        } else {
            None
        }
    }

    /// Decode the attribute byte found at position `pos` of a code.
    pub fn from_byte(b: u8, pos: usize) -> (r: Result<Dependency, Error>)
        ensures
            match Dependency::spec_decode(b) {
                Some(a) => r == Ok::<Dependency, Error>(a),
                None => r == Err::<Dependency, Error>(Error::InvalidAttribute(pos, b)),
            },
    {
        if b == 'B' as u8 {
            Ok(Dependency::Bonds)
        } else if b == 'C' as u8 {
            Ok(Dependency::Convertible)
        } else if b == 'W' as u8 {
            Ok(Dependency::WarrantsAttached)
        } else if b == 'T' as u8 {
            Ok(Dependency::MediumTerm)
        } else if b == 'Y' as u8 {
            Ok(Dependency::MoneyMarket)
        } else if b == 'G' as u8 {
            Ok(Dependency::MortgageBacked)
        } else if b == 'A' as u8 {
            Ok(Dependency::AssetBacked)
        } else if b == 'N' as u8 {
            Ok(Dependency::Municipal)
        } else if b == 'M' as u8 {
            Ok(Dependency::Other)
        } else if b == 'X' as u8 {
            Ok(Dependency::Undefined)
        } else {
            Err(Error::InvalidAttribute(pos, b))
        }
    }

    /// The byte this value encodes to; the inverse of decoding.
    pub fn to_byte(&self) -> (r: u8)
        ensures
            r == self.spec_byte(),
    {
        match self {
            Dependency::Bonds => 'B' as u8,
            Dependency::Convertible => 'C' as u8,
            Dependency::WarrantsAttached => 'W' as u8,
            Dependency::MediumTerm => 'T' as u8,
            Dependency::MoneyMarket => 'Y' as u8,
            Dependency::MortgageBacked => 'G' as u8,
            Dependency::AssetBacked => 'A' as u8,
            Dependency::Municipal => 'N' as u8,
            Dependency::Other => 'M' as u8,
            Dependency::Undefined => 'X' as u8,
        }
    }

    /// Check if this value is [`Dependency::Bonds`].
    pub fn is_bonds(&self) -> (r: bool)
        ensures
            r == (self is Bonds),
    {
        matches!(self, Dependency::Bonds)
    }

    /// Check if this value is [`Dependency::Convertible`].
    pub fn is_convertible(&self) -> (r: bool)
        ensures
            r == (self is Convertible),
    {
        matches!(self, Dependency::Convertible)
    }

    /// Check if this value is [`Dependency::WarrantsAttached`].
    pub fn is_warrants_attached(&self) -> (r: bool)
        ensures
            r == (self is WarrantsAttached),
    {
        matches!(self, Dependency::WarrantsAttached)
    }

    /// Check if this value is [`Dependency::MediumTerm`].
    pub fn is_medium_term(&self) -> (r: bool)
        ensures
            r == (self is MediumTerm),
    {
        matches!(self, Dependency::MediumTerm)
    }

    /// Check if this value is [`Dependency::MoneyMarket`].
    pub fn is_money_market(&self) -> (r: bool)
        ensures
            r == (self is MoneyMarket),
    {
        matches!(self, Dependency::MoneyMarket)
    }

    /// Check if this value is [`Dependency::MortgageBacked`].
    pub fn is_mortgage_backed(&self) -> (r: bool)
        ensures
            r == (self is MortgageBacked),
    {
        matches!(self, Dependency::MortgageBacked)
    }

    /// Check if this value is [`Dependency::AssetBacked`].
    pub fn is_asset_backed(&self) -> (r: bool)
        ensures
            r == (self is AssetBacked),
    {
        matches!(self, Dependency::AssetBacked)
    }

    /// Check if this value is [`Dependency::Municipal`].
    pub fn is_municipal(&self) -> (r: bool)
        ensures
            r == (self is Municipal),
    {
        matches!(self, Dependency::Municipal)
    }

    /// Check if this value is [`Dependency::Other`].
    pub fn is_other(&self) -> (r: bool)
        ensures
            r == (self is Other),
    {
        matches!(self, Dependency::Other)
    }

    /// Check if this value is [`Dependency::Undefined`].
    pub fn is_undefined(&self) -> (r: bool)
        ensures
            r == (self is Undefined),
    {
        matches!(self, Dependency::Undefined)
    }
}

/// Type of interest/cache payment.
#[derive(Clone, Copy, Debug, Eq, Hash, Ord, PartialEq, PartialOrd, Structural)]
pub enum InterestOrCash {
    /// `F`: Fixed rate.
    Fixed,
    /// `Z`: Zero rate/discounted.
    Zero,
    /// `V`: Variable rate.
    Variable,
    /// `C`: Cash payment.
    Cash,
    /// `X`: Not applicable or undefined.
    Undefined,
}

impl InterestOrCash {
    /// The code character assigned to this value.
    pub open spec fn spec_byte(self) -> u8 {
        match self {
            InterestOrCash::Fixed => 'F' as u8,
            InterestOrCash::Zero => 'Z' as u8,
            InterestOrCash::Variable => 'V' as u8,
            InterestOrCash::Cash => 'C' as u8,
            InterestOrCash::Undefined => 'X' as u8,
        }
    }

    /// The member encoded by `b`, if `b` lies in this attribute's alphabet.
    pub open spec fn spec_decode(b: u8) -> Option<InterestOrCash> {
        if b == 'F' as u8 {
            Some(InterestOrCash::Fixed)
        } else if b == 'Z' as u8 {
            Some(InterestOrCash::Zero)
        } else if b == 'V' as u8 {
            Some(InterestOrCash::Variable)
        } else if b == 'C' as u8 {
            Some(InterestOrCash::Cash)
        } else if b == 'X' as u8 {
            Some(InterestOrCash::Undefined)
        } else {
            None
        }
    }

    /// Decode the attribute byte found at position `pos` of a code.
    pub fn from_byte(b: u8, pos: usize) -> (r: Result<InterestOrCash, Error>)
        ensures
            match InterestOrCash::spec_decode(b) {
                Some(a) => r == Ok::<InterestOrCash, Error>(a),
                None => r == Err::<InterestOrCash, Error>(Error::InvalidAttribute(pos, b)),
            },
    {
        if b == 'F' as u8 {
            Ok(InterestOrCash::Fixed)
        } else if b == 'Z' as u8 {
            Ok(InterestOrCash::Zero)
        } else if b == 'V' as u8 {
            Ok(InterestOrCash::Variable)
        } else if b == 'C' as u8 {
            Ok(InterestOrCash::Cash)
        } else if b == 'X' as u8 {
            Ok(InterestOrCash::Undefined)
        } else {
            Err(Error::InvalidAttribute(pos, b))
        }
    }

    /// The byte this value encodes to; the inverse of decoding.
    pub fn to_byte(&self) -> (r: u8)
        ensures
            r == self.spec_byte(),
    {
        match self {
            InterestOrCash::Fixed => 'F' as u8,
            InterestOrCash::Zero => 'Z' as u8,
            InterestOrCash::Variable => 'V' as u8,
            InterestOrCash::Cash => 'C' as u8,
            InterestOrCash::Undefined => 'X' as u8,
        }
    }

    /// Check if this value is [`InterestOrCash::Fixed`].
    pub fn is_fixed(&self) -> (r: bool)
        ensures
            r == (self is Fixed),
    {
        matches!(self, InterestOrCash::Fixed)
    }

    /// Check if this value is [`InterestOrCash::Zero`].
    pub fn is_zero(&self) -> (r: bool)
        ensures
            r == (self is Zero),
    {
        matches!(self, InterestOrCash::Zero)
    }

    /// Check if this value is [`InterestOrCash::Variable`].
    pub fn is_variable(&self) -> (r: bool)
        ensures
            r == (self is Variable),
    {
        matches!(self, InterestOrCash::Variable)
    }

    /// Check if this value is [`InterestOrCash::Cash`].
    pub fn is_cash(&self) -> (r: bool)
        ensures
            r == (self is Cash),
    {
        matches!(self, InterestOrCash::Cash)
    }

    /// Check if this value is [`InterestOrCash::Undefined`].
    pub fn is_undefined(&self) -> (r: bool)
        ensures
            r == (self is Undefined),
    {
        matches!(self, InterestOrCash::Undefined)
    }
}

/// Debt instruments that do not fit into any of the Groups of debt instruments.
#[derive(Clone, Copy, Debug, Eq, Hash, Ord, PartialEq, PartialOrd, Structural)]
pub enum OtherKind {
    /// `B`: Bank loan.
    BankLoan,
    /// `P`: Promissory note.
    PromissoryNote,
    /// `M`: Others (miscellaneous).
    Other,
    /// `X`: Not applicable or undefined.
    Undefined,
}

impl OtherKind {
    /// The code character assigned to this value.
    pub open spec fn spec_byte(self) -> u8 {
        match self {
            OtherKind::BankLoan => 'B' as u8,
            OtherKind::PromissoryNote => 'P' as u8,
            OtherKind::Other => 'M' as u8,
            OtherKind::Undefined => 'X' as u8,
        }
    }

    /// The member encoded by `b`, if `b` lies in this attribute's alphabet.
    pub open spec fn spec_decode(b: u8) -> Option<OtherKind> {
        if b == 'B' as u8 {
            Some(OtherKind::BankLoan)
        } else if b == 'P' as u8 {
            Some(OtherKind::PromissoryNote)
        } else if b == 'M' as u8 {
            Some(OtherKind::Other)
        } else if b == 'X' as u8 {
            Some(OtherKind::Undefined)
        } else {
            None
        }
    }

    /// Decode the attribute byte found at position `pos` of a code.
    pub fn from_byte(b: u8, pos: usize) -> (r: Result<OtherKind, Error>)
        ensures
            match OtherKind::spec_decode(b) {
                Some(a) => r == Ok::<OtherKind, Error>(a),
                None => r == Err::<OtherKind, Error>(Error::InvalidAttribute(pos, b)),
            },
    {
        if b == 'B' as u8 {
            Ok(OtherKind::BankLoan)
        } else if b == 'P' as u8 {
            Ok(OtherKind::PromissoryNote)
        } else if b == 'M' as u8 {
            Ok(OtherKind::Other)
        } else if b == 'X' as u8 {
            Ok(OtherKind::Undefined)
        } else {
            Err(Error::InvalidAttribute(pos, b))
        }
    }

    /// The byte this value encodes to; the inverse of decoding.
    pub fn to_byte(&self) -> (r: u8)
        ensures
            r == self.spec_byte(),
    {
        match self {
            OtherKind::BankLoan => 'B' as u8,
            OtherKind::PromissoryNote => 'P' as u8,
            OtherKind::Other => 'M' as u8,
            OtherKind::Undefined => 'X' as u8,
        }
    }

    /// Check if this value is [`OtherKind::BankLoan`].
    pub fn is_bank_loan(&self) -> (r: bool)
        ensures
            r == (self is BankLoan),
    {
        matches!(self, OtherKind::BankLoan)
    }

    /// Check if this value is [`OtherKind::PromissoryNote`].
    pub fn is_promissory_note(&self) -> (r: bool)
        ensures
            r == (self is PromissoryNote),
    {
        matches!(self, OtherKind::PromissoryNote)
    }

    /// Check if this value is [`OtherKind::Other`].
    pub fn is_other(&self) -> (r: bool)
        ensures
            r == (self is Other),
    {
        matches!(self, OtherKind::Other)
    }

    /// Check if this value is [`OtherKind::Undefined`].
    pub fn is_undefined(&self) -> (r: bool)
        ensures
            r == (self is Undefined),
    {
        matches!(self, OtherKind::Undefined)
    }
}

/// The encoding of a [`Debt::Bond`] value re-decodes to itself.
proof fn lemma_decode_encode_bond(a: Bond)
    ensures
        Debt::Bond(a).spec_bytes().len() == 6,
        Debt::Bond(a).spec_bytes()[0] == 'D' as u8,
        Debt::spec_decode(Debt::Bond(a).spec_bytes()) == Ok::<Debt, Error>(Debt::Bond(a)),
{
    let s = Debt::Bond(a).spec_bytes();
    assert(s.len() == 6);
    assert(s[1] == 'B' as u8);
    assert(s[2] == a.kind.spec_byte());
    assert(InterestInKindOrCash::spec_decode(s[2]) == Some(a.kind));
    assert(s[3] == a.guarantee.spec_byte());
    assert(Guarantee::spec_decode(s[3]) == Some(a.guarantee));
    assert(s[4] == a.redemption.spec_byte());
    assert(Redemption::spec_decode(s[4]) == Some(a.redemption));
    assert(s[5] == a.form.spec_byte());
    assert(Form::spec_decode(s[5]) == Some(a.form));
    assert(Bond::spec_decode(s) == Ok::<Bond, Error>(a));
}

/// The encoding of a [`Debt::Convertible`] value re-decodes to itself.
proof fn lemma_decode_encode_convertible(a: Convertible)
    ensures
        Debt::Convertible(a).spec_bytes().len() == 6,
        Debt::Convertible(a).spec_bytes()[0] == 'D' as u8,
        Debt::spec_decode(Debt::Convertible(a).spec_bytes()) == Ok::<Debt, Error>(Debt::Convertible(a)),
{
    let s = Debt::Convertible(a).spec_bytes();
    assert(s.len() == 6);
    assert(s[1] == 'C' as u8);
    assert(s[2] == a.interest.spec_byte());
    assert(InterestInKind::spec_decode(s[2]) == Some(a.interest));
    assert(s[3] == a.guarantee.spec_byte());
    assert(Guarantee::spec_decode(s[3]) == Some(a.guarantee));
    assert(s[4] == a.redemption.spec_byte());
    assert(Redemption::spec_decode(s[4]) == Some(a.redemption));
    assert(s[5] == a.form.spec_byte());
    assert(Form::spec_decode(s[5]) == Some(a.form));
    assert(Convertible::spec_decode(s) == Ok::<Convertible, Error>(a));
}

/// The encoding of a [`Debt::WarrantAttached`] value re-decodes to itself.
proof fn lemma_decode_encode_warrant_attached(a: WarrantAttached)
    ensures
        Debt::WarrantAttached(a).spec_bytes().len() == 6,
        Debt::WarrantAttached(a).spec_bytes()[0] == 'D' as u8,
        Debt::spec_decode(Debt::WarrantAttached(a).spec_bytes()) == Ok::<Debt, Error>(Debt::WarrantAttached(a)),
{
    let s = Debt::WarrantAttached(a).spec_bytes();
    assert(s.len() == 6);
    assert(s[1] == 'W' as u8);
    assert(s[2] == a.interest.spec_byte());
    assert(InterestInKind::spec_decode(s[2]) == Some(a.interest));
    assert(s[3] == a.guarantee.spec_byte());
    assert(Guarantee::spec_decode(s[3]) == Some(a.guarantee));
    assert(s[4] == a.redemption.spec_byte());
    assert(Redemption::spec_decode(s[4]) == Some(a.redemption));
    assert(s[5] == a.form.spec_byte());
    assert(Form::spec_decode(s[5]) == Some(a.form));
    assert(WarrantAttached::spec_decode(s) == Ok::<WarrantAttached, Error>(a));
}

/// The encoding of a [`Debt::MediumTerm`] value re-decodes to itself.
proof fn lemma_decode_encode_medium_term(a: MediumTerm)
    ensures
        Debt::MediumTerm(a).spec_bytes().len() == 6,
        Debt::MediumTerm(a).spec_bytes()[0] == 'D' as u8,
        Debt::spec_decode(Debt::MediumTerm(a).spec_bytes()) == Ok::<Debt, Error>(Debt::MediumTerm(a)),
{
    let s = Debt::MediumTerm(a).spec_bytes();
    assert(s.len() == 6);
    assert(s[1] == 'T' as u8);
    assert(s[2] == a.interest.spec_byte());
    assert(InterestInKind::spec_decode(s[2]) == Some(a.interest));
    assert(s[3] == a.guarantee.spec_byte());
    assert(Guarantee::spec_decode(s[3]) == Some(a.guarantee));
    assert(s[4] == a.redemption.spec_byte());
    assert(Redemption::spec_decode(s[4]) == Some(a.redemption));
    assert(s[5] == a.form.spec_byte());
    assert(Form::spec_decode(s[5]) == Some(a.form));
    assert(MediumTerm::spec_decode(s) == Ok::<MediumTerm, Error>(a));
}

/// The encoding of a [`Debt::MoneyMarket`] value re-decodes to itself.
proof fn lemma_decode_encode_money_market(a: MoneyMarket)
    ensures
        Debt::MoneyMarket(a).spec_bytes().len() == 6,
        Debt::MoneyMarket(a).spec_bytes()[0] == 'D' as u8,
        Debt::spec_decode(Debt::MoneyMarket(a).spec_bytes()) == Ok::<Debt, Error>(Debt::MoneyMarket(a)),
{
    let s = Debt::MoneyMarket(a).spec_bytes();
    assert(s.len() == 6);
    assert(s[1] == 'Y' as u8);
    assert(s[2] == a.interest.spec_byte());
    assert(InterestInKind::spec_decode(s[2]) == Some(a.interest));
    assert(s[3] == a.guarantee.spec_byte());
    assert(Guarantee::spec_decode(s[3]) == Some(a.guarantee));
    assert(s[4] == a.attr3.spec_byte());
    assert(NotApplicable::spec_decode(s[4]) == Some(a.attr3));
    assert(s[5] == a.form.spec_byte());
    assert(Form::spec_decode(s[5]) == Some(a.form));
    assert(MoneyMarket::spec_decode(s) == Ok::<MoneyMarket, Error>(a));
}

/// The encoding of a [`Debt::ProtectedStructured`] value re-decodes to itself.
proof fn lemma_decode_encode_protected_structured(a: ProtectedStructured)
    ensures
        Debt::ProtectedStructured(a).spec_bytes().len() == 6,
        Debt::ProtectedStructured(a).spec_bytes()[0] == 'D' as u8,
        Debt::spec_decode(Debt::ProtectedStructured(a).spec_bytes()) == Ok::<Debt, Error>(Debt::ProtectedStructured(a)),
{
    let s = Debt::ProtectedStructured(a).spec_bytes();
    assert(s.len() == 6);
    assert(s[1] == 'S' as u8);
    assert(s[2] == a.kind.spec_byte());
    assert(ProtectedKind::spec_decode(s[2]) == Some(a.kind));
    assert(s[3] == a.distribution.spec_byte());
    assert(Distribution::spec_decode(s[3]) == Some(a.distribution));
    assert(s[4] == a.repayment.spec_byte());
    assert(ProtectedRepayment::spec_decode(s[4]) == Some(a.repayment));
    assert(s[5] == a.underlying.spec_byte());
    assert(Underlying::spec_decode(s[5]) == Some(a.underlying));
    assert(ProtectedStructured::spec_decode(s) == Ok::<ProtectedStructured, Error>(a));
}

/// The encoding of a [`Debt::UnprotectedStructured`] value re-decodes to itself.
proof fn lemma_decode_encode_unprotected_structured(a: UnprotectedStructured)
    ensures
        Debt::UnprotectedStructured(a).spec_bytes().len() == 6,
        Debt::UnprotectedStructured(a).spec_bytes()[0] == 'D' as u8,
        Debt::spec_decode(Debt::UnprotectedStructured(a).spec_bytes()) == Ok::<Debt, Error>(Debt::UnprotectedStructured(a)),
{
    let s = Debt::UnprotectedStructured(a).spec_bytes();
    assert(s.len() == 6);
    assert(s[1] == 'E' as u8);
    assert(s[2] == a.kind.spec_byte());
    assert(UnprotectedKind::spec_decode(s[2]) == Some(a.kind));
    assert(s[3] == a.distribution.spec_byte());
    assert(Distribution::spec_decode(s[3]) == Some(a.distribution));
    assert(s[4] == a.repayment.spec_byte());
    assert(UnprotectedRepayment::spec_decode(s[4]) == Some(a.repayment));
    assert(s[5] == a.underlying.spec_byte());
    assert(Underlying::spec_decode(s[5]) == Some(a.underlying));
    assert(UnprotectedStructured::spec_decode(s) == Ok::<UnprotectedStructured, Error>(a));
}

/// The encoding of a [`Debt::MortgageBacked`] value re-decodes to itself.
proof fn lemma_decode_encode_mortgage_backed(a: MortgageBacked)
    ensures
        Debt::MortgageBacked(a).spec_bytes().len() == 6,
        Debt::MortgageBacked(a).spec_bytes()[0] == 'D' as u8,
        Debt::spec_decode(Debt::MortgageBacked(a).spec_bytes()) == Ok::<Debt, Error>(Debt::MortgageBacked(a)),
{
    let s = Debt::MortgageBacked(a).spec_bytes();
    assert(s.len() == 6);
    assert(s[1] == 'G' as u8);
    assert(s[2] == a.interest.spec_byte());
    assert(Interest::spec_decode(s[2]) == Some(a.interest));
    assert(s[3] == a.guarantee.spec_byte());
    assert(Guarantee::spec_decode(s[3]) == Some(a.guarantee));
    assert(s[4] == a.redemption.spec_byte());
    assert(Redemption::spec_decode(s[4]) == Some(a.redemption));
    assert(s[5] == a.form.spec_byte());
    assert(Form::spec_decode(s[5]) == Some(a.form));
    assert(MortgageBacked::spec_decode(s) == Ok::<MortgageBacked, Error>(a));
}

/// The encoding of a [`Debt::AssetBacked`] value re-decodes to itself.
proof fn lemma_decode_encode_asset_backed(a: AssetBacked)
    ensures
        Debt::AssetBacked(a).spec_bytes().len() == 6,
        Debt::AssetBacked(a).spec_bytes()[0] == 'D' as u8,
        Debt::spec_decode(Debt::AssetBacked(a).spec_bytes()) == Ok::<Debt, Error>(Debt::AssetBacked(a)),
{
    let s = Debt::AssetBacked(a).spec_bytes();
    assert(s.len() == 6);
    assert(s[1] == 'A' as u8);
    assert(s[2] == a.interest.spec_byte());
    assert(Interest::spec_decode(s[2]) == Some(a.interest));
    assert(s[3] == a.guarantee.spec_byte());
    assert(Guarantee::spec_decode(s[3]) == Some(a.guarantee));
    assert(s[4] == a.redemption.spec_byte());
    assert(Redemption::spec_decode(s[4]) == Some(a.redemption));
    assert(s[5] == a.form.spec_byte());
    assert(Form::spec_decode(s[5]) == Some(a.form));
    assert(AssetBacked::spec_decode(s) == Ok::<AssetBacked, Error>(a));
}

/// The encoding of a [`Debt::Municipal`] value re-decodes to itself.
proof fn lemma_decode_encode_municipal(a: Municipal)
    ensures
        Debt::Municipal(a).spec_bytes().len() == 6,
        Debt::Municipal(a).spec_bytes()[0] == 'D' as u8,
        Debt::spec_decode(Debt::Municipal(a).spec_bytes()) == Ok::<Debt, Error>(Debt::Municipal(a)),
{
    let s = Debt::Municipal(a).spec_bytes();
    assert(s.len() == 6);
    assert(s[1] == 'N' as u8);
    assert(s[2] == a.interest.spec_byte());
    assert(Interest::spec_decode(s[2]) == Some(a.interest));
    assert(s[3] == a.guarantee.spec_byte());
    assert(Guarantee::spec_decode(s[3]) == Some(a.guarantee));
    assert(s[4] == a.redemption.spec_byte());
    assert(Redemption::spec_decode(s[4]) == Some(a.redemption));
    assert(s[5] == a.form.spec_byte());
    assert(Form::spec_decode(s[5]) == Some(a.form));
    assert(Municipal::spec_decode(s) == Ok::<Municipal, Error>(a));
}

/// The encoding of a [`Debt::Depository`] value re-decodes to itself.
proof fn lemma_decode_encode_depository(a: Depository)
    ensures
        Debt::Depository(a).spec_bytes().len() == 6,
        Debt::Depository(a).spec_bytes()[0] == 'D' as u8,
        Debt::spec_decode(Debt::Depository(a).spec_bytes()) == Ok::<Debt, Error>(Debt::Depository(a)),
{
    let s = Debt::Depository(a).spec_bytes();
    assert(s.len() == 6);
    assert(s[1] == 'D' as u8);
    assert(s[2] == a.dependency.spec_byte());
    assert(Dependency::spec_decode(s[2]) == Some(a.dependency));
    assert(s[3] == a.interest.spec_byte());
    assert(InterestOrCash::spec_decode(s[3]) == Some(a.interest));
    assert(s[4] == a.guarantee.spec_byte());
    assert(Guarantee::spec_decode(s[4]) == Some(a.guarantee));
    assert(s[5] == a.redemption.spec_byte());
    assert(Redemption::spec_decode(s[5]) == Some(a.redemption));
    assert(Depository::spec_decode(s) == Ok::<Depository, Error>(a));
}

/// The encoding of a [`Debt::Other`] value re-decodes to itself.
proof fn lemma_decode_encode_other(a: Other)
    ensures
        Debt::Other(a).spec_bytes().len() == 6,
        Debt::Other(a).spec_bytes()[0] == 'D' as u8,
        Debt::spec_decode(Debt::Other(a).spec_bytes()) == Ok::<Debt, Error>(Debt::Other(a)),
{
    let s = Debt::Other(a).spec_bytes();
    assert(s.len() == 6);
    assert(s[1] == 'M' as u8);
    assert(s[2] == a.kind.spec_byte());
    assert(OtherKind::spec_decode(s[2]) == Some(a.kind));
    assert(s[3] == a.attr2.spec_byte());
    assert(NotApplicable::spec_decode(s[3]) == Some(a.attr2));
    assert(s[4] == a.attr3.spec_byte());
    assert(NotApplicable::spec_decode(s[4]) == Some(a.attr3));
    assert(s[5] == a.form.spec_byte());
    assert(Form::spec_decode(s[5]) == Some(a.form));
    assert(Other::spec_decode(s) == Ok::<Other, Error>(a));
}

/// Every debt group value re-decodes from its own encoding.
pub proof fn lemma_decode_encode(g: Debt)
    ensures
        g.spec_bytes().len() == 6,
        g.spec_bytes()[0] == 'D' as u8,
        Debt::spec_decode(g.spec_bytes()) == Ok::<Debt, Error>(g),
{
    match g {
        Debt::Bond(a) => lemma_decode_encode_bond(a),
        Debt::Convertible(a) => lemma_decode_encode_convertible(a),
        Debt::WarrantAttached(a) => lemma_decode_encode_warrant_attached(a),
        Debt::MediumTerm(a) => lemma_decode_encode_medium_term(a),
        Debt::MoneyMarket(a) => lemma_decode_encode_money_market(a),
        Debt::ProtectedStructured(a) => lemma_decode_encode_protected_structured(a),
        Debt::UnprotectedStructured(a) => lemma_decode_encode_unprotected_structured(a),
        Debt::MortgageBacked(a) => lemma_decode_encode_mortgage_backed(a),
        Debt::AssetBacked(a) => lemma_decode_encode_asset_backed(a),
        Debt::Municipal(a) => lemma_decode_encode_municipal(a),
        Debt::Depository(a) => lemma_decode_encode_depository(a),
        Debt::Other(a) => lemma_decode_encode_other(a),
    }
}

/// Every debt code that decodes successfully re-encodes to the same
/// six bytes.
#[verifier::rlimit(50)]
pub proof fn lemma_encode_decode(s: Seq<u8>, g: Debt)
    requires
        Debt::spec_decode(s) == Ok::<Debt, Error>(g),
        s[0] == 'D' as u8,
    ensures
        g.spec_bytes() == s,
{
    if s[1] == 'B' as u8 {
        assert(g.spec_bytes() =~= s);
    } else if s[1] == 'C' as u8 {
        assert(g.spec_bytes() =~= s);
    } else if s[1] == 'W' as u8 {
        assert(g.spec_bytes() =~= s);
    } else if s[1] == 'T' as u8 {
        assert(g.spec_bytes() =~= s);
    } else if s[1] == 'Y' as u8 {
        assert(g.spec_bytes() =~= s);
    } else if s[1] == 'S' as u8 {
        assert(g.spec_bytes() =~= s);
    } else if s[1] == 'E' as u8 {
        assert(g.spec_bytes() =~= s);
    } else if s[1] == 'G' as u8 {
        assert(g.spec_bytes() =~= s);
    } else if s[1] == 'A' as u8 {
        assert(g.spec_bytes() =~= s);
    } else if s[1] == 'N' as u8 {
        assert(g.spec_bytes() =~= s);
    } else if s[1] == 'D' as u8 {
        assert(g.spec_bytes() =~= s);
    } else if s[1] == 'M' as u8 {
        assert(g.spec_bytes() =~= s);
    } else {
    }
}

/// Substituting `X` at any attribute position of a debt code that
/// decodes successfully leaves a code that still decodes successfully.
pub proof fn lemma_undefined_universality(s: Seq<u8>, i: int)
    requires
        Debt::spec_decode(s) is Ok,
        2 <= i < 6,
    ensures
        Debt::spec_decode(s.update(i, 'X' as u8)) is Ok,
{
    let t = s.update(i, 'X' as u8);
    assert(t.len() == s.len());
    assert(t[1] == s[1]);
    assert(t[i] == 'X' as u8);
    assert(forall|j: int| 0 <= j < 6 && j != i ==> t[j] == s[j]);
}

/// A six-byte debt code whose byte 1 is not a group tag is rejected
/// with exactly that byte, whatever the remaining bytes hold.
pub proof fn lemma_invalid_group(s: Seq<u8>)
    requires
        s.len() == 6,
        !Debt::spec_group_tag(s[1]),
    ensures
        Debt::spec_decode(s) == Err::<Debt, Error>(Error::InvalidGroup(s[1])),
{
}

/// When the group tag is legal and position `i` holds the first attribute
/// byte outside its alphabet, decoding reports exactly that position.
pub proof fn lemma_first_invalid_attribute(s: Seq<u8>, i: int)
    requires
        s.len() == 6,
        Debt::spec_group_tag(s[1]),
        2 <= i < 6,
        forall|j: int| 2 <= j < i ==> Debt::spec_attr_ok(s, j),
        !Debt::spec_attr_ok(s, i),
    ensures
        Debt::spec_decode(s) == Err::<Debt, Error>(Error::InvalidAttribute(i as usize, s[i])),
{
    if i > 2 {
        assert(Debt::spec_attr_ok(s, 2));
    }
    if i > 3 {
        assert(Debt::spec_attr_ok(s, 3));
    }
    if i > 4 {
        assert(Debt::spec_attr_ok(s, 4));
    }
}

/// A six-byte debt code decodes successfully exactly when its group
/// tag and all four attribute bytes are legal.
pub proof fn lemma_ok_iff(s: Seq<u8>)
    requires
        s.len() == 6,
    ensures
        Debt::spec_decode(s) is Ok <==> (Debt::spec_group_tag(s[1])
            && (forall|j: int| 2 <= j < 6 ==> Debt::spec_attr_ok(s, j))),
{
    if Debt::spec_group_tag(s[1]) && (forall|j: int| 2 <= j < 6 ==> Debt::spec_attr_ok(s, j)) {
        assert(Debt::spec_attr_ok(s, 2));
        assert(Debt::spec_attr_ok(s, 3));
        assert(Debt::spec_attr_ok(s, 4));
        assert(Debt::spec_attr_ok(s, 5));
    }
    if Debt::spec_decode(s) is Ok {
        assert forall|j: int| 2 <= j < 6 implies Debt::spec_attr_ok(s, j) by {
        }
    }
}

impl Attr for InterestInKindOrCash {
    open spec fn spec_decode_byte(b: u8) -> Option<InterestInKindOrCash> {
        InterestInKindOrCash::spec_decode(b)
    }

    fn from_code_byte(value: u8) -> (r: Result<InterestInKindOrCash, Error>) {
        InterestInKindOrCash::from_byte(value, 0)
    }
}

impl AttrPos<2> for InterestInKindOrCash {
}

impl Attr for Guarantee {
    open spec fn spec_decode_byte(b: u8) -> Option<Guarantee> {
        Guarantee::spec_decode(b)
    }

    fn from_code_byte(value: u8) -> (r: Result<Guarantee, Error>) {
        Guarantee::from_byte(value, 0)
    }
}

impl AttrPos<3> for Guarantee {
}

impl AttrPos<4> for Guarantee {
}

impl Attr for Redemption {
    open spec fn spec_decode_byte(b: u8) -> Option<Redemption> {
        Redemption::spec_decode(b)
    }

    fn from_code_byte(value: u8) -> (r: Result<Redemption, Error>) {
        Redemption::from_byte(value, 0)
    }
}

impl AttrPos<4> for Redemption {
}

impl AttrPos<5> for Redemption {
}

impl Attr for InterestInKind {
    open spec fn spec_decode_byte(b: u8) -> Option<InterestInKind> {
        InterestInKind::spec_decode(b)
    }

    fn from_code_byte(value: u8) -> (r: Result<InterestInKind, Error>) {
        InterestInKind::from_byte(value, 0)
    }
}

impl AttrPos<2> for InterestInKind {
}

impl Attr for ProtectedKind {
    open spec fn spec_decode_byte(b: u8) -> Option<ProtectedKind> {
        ProtectedKind::spec_decode(b)
    }

    fn from_code_byte(value: u8) -> (r: Result<ProtectedKind, Error>) {
        ProtectedKind::from_byte(value, 0)
    }
}

impl AttrPos<2> for ProtectedKind {
}

impl Attr for Distribution {
    open spec fn spec_decode_byte(b: u8) -> Option<Distribution> {
        Distribution::spec_decode(b)
    }

    fn from_code_byte(value: u8) -> (r: Result<Distribution, Error>) {
        Distribution::from_byte(value, 0)
    }
}

impl AttrPos<3> for Distribution {
}

impl Attr for ProtectedRepayment {
    open spec fn spec_decode_byte(b: u8) -> Option<ProtectedRepayment> {
        ProtectedRepayment::spec_decode(b)
    }

    fn from_code_byte(value: u8) -> (r: Result<ProtectedRepayment, Error>) {
        ProtectedRepayment::from_byte(value, 0)
    }
}

impl AttrPos<4> for ProtectedRepayment {
}

impl Attr for Underlying {
    open spec fn spec_decode_byte(b: u8) -> Option<Underlying> {
        Underlying::spec_decode(b)
    }

    fn from_code_byte(value: u8) -> (r: Result<Underlying, Error>) {
        Underlying::from_byte(value, 0)
    }
}

impl AttrPos<5> for Underlying {
}

impl Attr for UnprotectedKind {
    open spec fn spec_decode_byte(b: u8) -> Option<UnprotectedKind> {
        UnprotectedKind::spec_decode(b)
    }

    fn from_code_byte(value: u8) -> (r: Result<UnprotectedKind, Error>) {
        UnprotectedKind::from_byte(value, 0)
    }
}

impl AttrPos<2> for UnprotectedKind {
}

impl Attr for UnprotectedRepayment {
    open spec fn spec_decode_byte(b: u8) -> Option<UnprotectedRepayment> {
        UnprotectedRepayment::spec_decode(b)
    }

    fn from_code_byte(value: u8) -> (r: Result<UnprotectedRepayment, Error>) {
        UnprotectedRepayment::from_byte(value, 0)
    }
}

impl AttrPos<4> for UnprotectedRepayment {
}

impl Attr for Interest {
    open spec fn spec_decode_byte(b: u8) -> Option<Interest> {
        Interest::spec_decode(b)
    }

    fn from_code_byte(value: u8) -> (r: Result<Interest, Error>) {
        Interest::from_byte(value, 0)
    }
}

impl AttrPos<2> for Interest {
}

impl Attr for Dependency {
    open spec fn spec_decode_byte(b: u8) -> Option<Dependency> {
        Dependency::spec_decode(b)
    }

    fn from_code_byte(value: u8) -> (r: Result<Dependency, Error>) {
        Dependency::from_byte(value, 0)
    }
}

impl AttrPos<2> for Dependency {
}

impl Attr for InterestOrCash {
    open spec fn spec_decode_byte(b: u8) -> Option<InterestOrCash> {
        InterestOrCash::spec_decode(b)
    }

    fn from_code_byte(value: u8) -> (r: Result<InterestOrCash, Error>) {
        InterestOrCash::from_byte(value, 0)
    }
}

impl AttrPos<3> for InterestOrCash {
}

impl Attr for OtherKind {
    open spec fn spec_decode_byte(b: u8) -> Option<OtherKind> {
        OtherKind::spec_decode(b)
    }

    fn from_code_byte(value: u8) -> (r: Result<OtherKind, Error>) {
        OtherKind::from_byte(value, 0)
    }
}

impl AttrPos<2> for OtherKind {
}

impl CfiGroup for Bond {
    type Attr1 = InterestInKindOrCash;

    type Attr2 = Guarantee;

    type Attr3 = Redemption;

    type Attr4 = Form;

    open spec fn spec_attr1(self) -> InterestInKindOrCash {
        self.kind
    }

    open spec fn spec_attr2(self) -> Guarantee {
        self.guarantee
    }

    open spec fn spec_attr3(self) -> Redemption {
        self.redemption
    }

    open spec fn spec_attr4(self) -> Form {
        self.form
    }

    open spec fn spec_from_cfi(s: Seq<u8>) -> Result<Bond, Error> {
        Bond::spec_decode(s)
    }

    fn attr1(&self) -> (r: InterestInKindOrCash) {
        self.kind
    }

    fn attr2(&self) -> (r: Guarantee) {
        self.guarantee
    }

    fn attr3(&self) -> (r: Redemption) {
        self.redemption
    }

    fn attr4(&self) -> (r: Form) {
        self.form
    }

    fn from_cfi_bytes(value: &[u8]) -> (r: Result<Bond, Error>) {
        Bond::from_bytes(value)
    }
}

impl CfiGroup for Convertible {
    type Attr1 = InterestInKind;

    type Attr2 = Guarantee;

    type Attr3 = Redemption;

    type Attr4 = Form;

    open spec fn spec_attr1(self) -> InterestInKind {
        self.interest
    }

    open spec fn spec_attr2(self) -> Guarantee {
        self.guarantee
    }

    open spec fn spec_attr3(self) -> Redemption {
        self.redemption
    }

    open spec fn spec_attr4(self) -> Form {
        self.form
    }

    open spec fn spec_from_cfi(s: Seq<u8>) -> Result<Convertible, Error> {
        Convertible::spec_decode(s)
    }

    fn attr1(&self) -> (r: InterestInKind) {
        self.interest
    }

    fn attr2(&self) -> (r: Guarantee) {
        self.guarantee
    }

    fn attr3(&self) -> (r: Redemption) {
        self.redemption
    }

    fn attr4(&self) -> (r: Form) {
        self.form
    }

    fn from_cfi_bytes(value: &[u8]) -> (r: Result<Convertible, Error>) {
        Convertible::from_bytes(value)
    }
}

impl CfiGroup for WarrantAttached {
    type Attr1 = InterestInKind;

    type Attr2 = Guarantee;

    type Attr3 = Redemption;

    type Attr4 = Form;

    open spec fn spec_attr1(self) -> InterestInKind {
        self.interest
    }

    open spec fn spec_attr2(self) -> Guarantee {
        self.guarantee
    }

    open spec fn spec_attr3(self) -> Redemption {
        self.redemption
    }

    open spec fn spec_attr4(self) -> Form {
        self.form
    }

    open spec fn spec_from_cfi(s: Seq<u8>) -> Result<WarrantAttached, Error> {
        WarrantAttached::spec_decode(s)
    }

    fn attr1(&self) -> (r: InterestInKind) {
        self.interest
    }

    fn attr2(&self) -> (r: Guarantee) {
        self.guarantee
    }

    fn attr3(&self) -> (r: Redemption) {
        self.redemption
    }

    fn attr4(&self) -> (r: Form) {
        self.form
    }

    fn from_cfi_bytes(value: &[u8]) -> (r: Result<WarrantAttached, Error>) {
        WarrantAttached::from_bytes(value)
    }
}

impl CfiGroup for MediumTerm {
    type Attr1 = InterestInKind;

    type Attr2 = Guarantee;

    type Attr3 = Redemption;

    type Attr4 = Form;

    open spec fn spec_attr1(self) -> InterestInKind {
        self.interest
    }

    open spec fn spec_attr2(self) -> Guarantee {
        self.guarantee
    }

    open spec fn spec_attr3(self) -> Redemption {
        self.redemption
    }

    open spec fn spec_attr4(self) -> Form {
        self.form
    }

    open spec fn spec_from_cfi(s: Seq<u8>) -> Result<MediumTerm, Error> {
        MediumTerm::spec_decode(s)
    }

    fn attr1(&self) -> (r: InterestInKind) {
        self.interest
    }

    fn attr2(&self) -> (r: Guarantee) {
        self.guarantee
    }

    fn attr3(&self) -> (r: Redemption) {
        self.redemption
    }

    fn attr4(&self) -> (r: Form) {
        self.form
    }

    fn from_cfi_bytes(value: &[u8]) -> (r: Result<MediumTerm, Error>) {
        MediumTerm::from_bytes(value)
    }
}

impl CfiGroup for MoneyMarket {
    type Attr1 = InterestInKind;

    type Attr2 = Guarantee;

    type Attr3 = NotApplicable;

    type Attr4 = Form;

    open spec fn spec_attr1(self) -> InterestInKind {
        self.interest
    }

    open spec fn spec_attr2(self) -> Guarantee {
        self.guarantee
    }

    open spec fn spec_attr3(self) -> NotApplicable {
        self.attr3
    }

    open spec fn spec_attr4(self) -> Form {
        self.form
    }

    open spec fn spec_from_cfi(s: Seq<u8>) -> Result<MoneyMarket, Error> {
        MoneyMarket::spec_decode(s)
    }

    fn attr1(&self) -> (r: InterestInKind) {
        self.interest
    }

    fn attr2(&self) -> (r: Guarantee) {
        self.guarantee
    }

    fn attr3(&self) -> (r: NotApplicable) {
        self.attr3
    }

    fn attr4(&self) -> (r: Form) {
        self.form
    }

    fn from_cfi_bytes(value: &[u8]) -> (r: Result<MoneyMarket, Error>) {
        MoneyMarket::from_bytes(value)
    }
}

impl CfiGroup for ProtectedStructured {
    type Attr1 = ProtectedKind;

    type Attr2 = Distribution;

    type Attr3 = ProtectedRepayment;

    type Attr4 = Underlying;

    open spec fn spec_attr1(self) -> ProtectedKind {
        self.kind
    }

    open spec fn spec_attr2(self) -> Distribution {
        self.distribution
    }

    open spec fn spec_attr3(self) -> ProtectedRepayment {
        self.repayment
    }

    open spec fn spec_attr4(self) -> Underlying {
        self.underlying
    }

    open spec fn spec_from_cfi(s: Seq<u8>) -> Result<ProtectedStructured, Error> {
        ProtectedStructured::spec_decode(s)
    }

    fn attr1(&self) -> (r: ProtectedKind) {
        self.kind
    }

    fn attr2(&self) -> (r: Distribution) {
        self.distribution
    }

    fn attr3(&self) -> (r: ProtectedRepayment) {
        self.repayment
    }

    fn attr4(&self) -> (r: Underlying) {
        self.underlying
    }

    fn from_cfi_bytes(value: &[u8]) -> (r: Result<ProtectedStructured, Error>) {
        ProtectedStructured::from_bytes(value)
    }
}

impl CfiGroup for UnprotectedStructured {
    type Attr1 = UnprotectedKind;

    type Attr2 = Distribution;

    type Attr3 = UnprotectedRepayment;

    type Attr4 = Underlying;

    open spec fn spec_attr1(self) -> UnprotectedKind {
        self.kind
    }

    open spec fn spec_attr2(self) -> Distribution {
        self.distribution
    }

    open spec fn spec_attr3(self) -> UnprotectedRepayment {
        self.repayment
    }

    open spec fn spec_attr4(self) -> Underlying {
        self.underlying
    }

    open spec fn spec_from_cfi(s: Seq<u8>) -> Result<UnprotectedStructured, Error> {
        UnprotectedStructured::spec_decode(s)
    }

    fn attr1(&self) -> (r: UnprotectedKind) {
        self.kind
    }

    fn attr2(&self) -> (r: Distribution) {
        self.distribution
    }

    fn attr3(&self) -> (r: UnprotectedRepayment) {
        self.repayment
    }

    fn attr4(&self) -> (r: Underlying) {
        self.underlying
    }

    fn from_cfi_bytes(value: &[u8]) -> (r: Result<UnprotectedStructured, Error>) {
        UnprotectedStructured::from_bytes(value)
    }
}

impl CfiGroup for MortgageBacked {
    type Attr1 = Interest;

    type Attr2 = Guarantee;

    type Attr3 = Redemption;

    type Attr4 = Form;

    open spec fn spec_attr1(self) -> Interest {
        self.interest
    }

    open spec fn spec_attr2(self) -> Guarantee {
        self.guarantee
    }

    open spec fn spec_attr3(self) -> Redemption {
        self.redemption
    }

    open spec fn spec_attr4(self) -> Form {
        self.form
    }

    open spec fn spec_from_cfi(s: Seq<u8>) -> Result<MortgageBacked, Error> {
        MortgageBacked::spec_decode(s)
    }

    fn attr1(&self) -> (r: Interest) {
        self.interest
    }

    fn attr2(&self) -> (r: Guarantee) {
        self.guarantee
    }

    fn attr3(&self) -> (r: Redemption) {
        self.redemption
    }

    fn attr4(&self) -> (r: Form) {
        self.form
    }

    fn from_cfi_bytes(value: &[u8]) -> (r: Result<MortgageBacked, Error>) {
        MortgageBacked::from_bytes(value)
    }
}

impl CfiGroup for AssetBacked {
    type Attr1 = Interest;

    type Attr2 = Guarantee;

    type Attr3 = Redemption;

    type Attr4 = Form;

    open spec fn spec_attr1(self) -> Interest {
        self.interest
    }

    open spec fn spec_attr2(self) -> Guarantee {
        self.guarantee
    }

    open spec fn spec_attr3(self) -> Redemption {
        self.redemption
    }

    open spec fn spec_attr4(self) -> Form {
        self.form
    }

    open spec fn spec_from_cfi(s: Seq<u8>) -> Result<AssetBacked, Error> {
        AssetBacked::spec_decode(s)
    }

    fn attr1(&self) -> (r: Interest) {
        self.interest
    }

    fn attr2(&self) -> (r: Guarantee) {
        self.guarantee
    }

    fn attr3(&self) -> (r: Redemption) {
        self.redemption
    }

    fn attr4(&self) -> (r: Form) {
        self.form
    }

    fn from_cfi_bytes(value: &[u8]) -> (r: Result<AssetBacked, Error>) {
        AssetBacked::from_bytes(value)
    }
}

impl CfiGroup for Municipal {
    type Attr1 = Interest;

    type Attr2 = Guarantee;

    type Attr3 = Redemption;

    type Attr4 = Form;

    open spec fn spec_attr1(self) -> Interest {
        self.interest
    }

    open spec fn spec_attr2(self) -> Guarantee {
        self.guarantee
    }

    open spec fn spec_attr3(self) -> Redemption {
        self.redemption
    }

    open spec fn spec_attr4(self) -> Form {
        self.form
    }

    open spec fn spec_from_cfi(s: Seq<u8>) -> Result<Municipal, Error> {
        Municipal::spec_decode(s)
    }

    fn attr1(&self) -> (r: Interest) {
        self.interest
    }

    fn attr2(&self) -> (r: Guarantee) {
        self.guarantee
    }

    fn attr3(&self) -> (r: Redemption) {
        self.redemption
    }

    fn attr4(&self) -> (r: Form) {
        self.form
    }

    fn from_cfi_bytes(value: &[u8]) -> (r: Result<Municipal, Error>) {
        Municipal::from_bytes(value)
    }
}

impl CfiGroup for Depository {
    type Attr1 = Dependency;

    type Attr2 = InterestOrCash;

    type Attr3 = Guarantee;

    type Attr4 = Redemption;

    open spec fn spec_attr1(self) -> Dependency {
        self.dependency
    }

    open spec fn spec_attr2(self) -> InterestOrCash {
        self.interest
    }

    open spec fn spec_attr3(self) -> Guarantee {
        self.guarantee
    }

    open spec fn spec_attr4(self) -> Redemption {
        self.redemption
    }

    open spec fn spec_from_cfi(s: Seq<u8>) -> Result<Depository, Error> {
        Depository::spec_decode(s)
    }

    fn attr1(&self) -> (r: Dependency) {
        self.dependency
    }

    fn attr2(&self) -> (r: InterestOrCash) {
        self.interest
    }

    fn attr3(&self) -> (r: Guarantee) {
        self.guarantee
    }

    fn attr4(&self) -> (r: Redemption) {
        self.redemption
    }

    fn from_cfi_bytes(value: &[u8]) -> (r: Result<Depository, Error>) {
        Depository::from_bytes(value)
    }
}

impl CfiGroup for Other {
    type Attr1 = OtherKind;

    type Attr2 = NotApplicable;

    type Attr3 = NotApplicable;

    type Attr4 = Form;

    open spec fn spec_attr1(self) -> OtherKind {
        self.kind
    }

    open spec fn spec_attr2(self) -> NotApplicable {
        self.attr2
    }

    open spec fn spec_attr3(self) -> NotApplicable {
        self.attr3
    }

    open spec fn spec_attr4(self) -> Form {
        self.form
    }

    open spec fn spec_from_cfi(s: Seq<u8>) -> Result<Other, Error> {
        Other::spec_decode(s)
    }

    fn attr1(&self) -> (r: OtherKind) {
        self.kind
    }

    fn attr2(&self) -> (r: NotApplicable) {
        self.attr2
    }

    fn attr3(&self) -> (r: NotApplicable) {
        self.attr3
    }

    fn attr4(&self) -> (r: Form) {
        self.form
    }

    fn from_cfi_bytes(value: &[u8]) -> (r: Result<Other, Error>) {
        Other::from_bytes(value)
    }
}

} // verus!
