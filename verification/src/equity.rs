//! Equities-category CFI details.

use vstd::prelude::*;

use crate::Attr;
use crate::AttrPos;
use crate::CfiGroup;
use crate::Error;
use crate::Form;
use crate::NotApplicable;

verus! {

/// CFI groups for equities, tagged by byte 1 of the code.
#[derive(Clone, Copy, Debug, Eq, Hash, Ord, PartialEq, PartialOrd, Structural)]
pub enum Group {
    /// `S`: Common/ordinary shares.
    Common(CommonAttributes),
    /// `P`: Preferred shares.
    Preferred(PreferredAttributes),
    /// `C`: Convertible shares.
    Convertible(ConvertibleAttributes),
    /// `F`: Preferred convertible shares.
    PreferedConvertible(PreferredConvertibleAttributes),
    /// `L`: Limited partnership units.
    LlpUnit(LlpAttributes),
    /// `D`: Depository receipts on equities.
    DepositoryReceipt(ReceiptAttributes),
    /// `Y`: Structured instruments (participation).
    Structured(StructuredAttributes),
    /// `R`: Preference shares.
    Preference(PreferenceAttributes),
    /// `V`: Preference convertible shares.
    PreferenceConvertible(PreferenceConvertibleAttributes),
    /// `U`: Units (from unit trusts, mutual funds, OPCVM or OICVM).
    Unit(UnitAttributes),
    /// `M`: Others (miscellaneous).
    Other(OtherAttributes),
}

impl Group {
    /// Whether `b` is one of this category's group tags.
    ///
    /// Equities carry the widest group set of any category: beyond the
    /// eight core share groups (`S`, `P`, `C`, `F`, `L`, `D`, `Y`, `M`),
    /// the taxonomy also defines preference shares (`R`), preference
    /// convertible shares (`V`) and units (`U`), and the decoder accepts
    /// all eleven.
    pub open spec fn spec_group_tag(b: u8) -> bool {
        b == 'S' as u8
            || b == 'P' as u8
            || b == 'C' as u8
            || b == 'F' as u8
            || b == 'L' as u8
            || b == 'D' as u8
            || b == 'Y' as u8
            || b == 'R' as u8
            || b == 'V' as u8
            || b == 'U' as u8
            || b == 'M' as u8
    }

    /// The full six-byte encoding of this group, category tag included.
    pub open spec fn spec_bytes(self) -> Seq<u8> {
        match self {
            Group::Common(a) => seq!['E' as u8, 'S' as u8] + a.spec_bytes(),
            Group::Preferred(a) => seq!['E' as u8, 'P' as u8] + a.spec_bytes(),
            Group::Convertible(a) => seq!['E' as u8, 'C' as u8] + a.spec_bytes(),
            Group::PreferedConvertible(a) => seq!['E' as u8, 'F' as u8] + a.spec_bytes(),
            Group::LlpUnit(a) => seq!['E' as u8, 'L' as u8] + a.spec_bytes(),
            Group::DepositoryReceipt(a) => seq!['E' as u8, 'D' as u8] + a.spec_bytes(),
            Group::Structured(a) => seq!['E' as u8, 'Y' as u8] + a.spec_bytes(),
            Group::Preference(a) => seq!['E' as u8, 'R' as u8] + a.spec_bytes(),
            Group::PreferenceConvertible(a) => seq!['E' as u8, 'V' as u8] + a.spec_bytes(),
            Group::Unit(a) => seq!['E' as u8, 'U' as u8] + a.spec_bytes(),
            Group::Other(a) => seq!['E' as u8, 'M' as u8] + a.spec_bytes(),
        }
    }

    /// Whether byte `j` of `s` lies in the alphabet that this category's
    /// schema assigns to position `j`, for the group selected by byte 1.
    pub open spec fn spec_attr_ok(s: Seq<u8>, j: int) -> bool
        recommends
            s.len() == 6,
            2 <= j < 6,
    {
        if s[1] == 'S' as u8 {
            if j == 2 {
                VotingRight::spec_decode(s[2]) is Some
            } else if j == 3 {
                Ownership::spec_decode(s[3]) is Some
            } else if j == 4 {
                PaymentStatus::spec_decode(s[4]) is Some
            } else {
                Form::spec_decode(s[5]) is Some
            }
        } else if s[1] == 'P' as u8 {
            if j == 2 {
                VotingRight::spec_decode(s[2]) is Some
            } else if j == 3 {
                Redemption::spec_decode(s[3]) is Some
            } else if j == 4 {
                Income::spec_decode(s[4]) is Some
            } else {
                Form::spec_decode(s[5]) is Some
            }
        } else if s[1] == 'C' as u8 {
            if j == 2 {
                VotingRight::spec_decode(s[2]) is Some
            } else if j == 3 {
                Ownership::spec_decode(s[3]) is Some
            } else if j == 4 {
                PaymentStatus::spec_decode(s[4]) is Some
            } else {
                Form::spec_decode(s[5]) is Some
            }
        } else if s[1] == 'F' as u8 {
            if j == 2 {
                VotingRight::spec_decode(s[2]) is Some
            } else if j == 3 {
                Redemption::spec_decode(s[3]) is Some
            } else if j == 4 {
                Income::spec_decode(s[4]) is Some
            } else {
                Form::spec_decode(s[5]) is Some
            }
        } else if s[1] == 'L' as u8 {
            if j == 2 {
                VotingRight::spec_decode(s[2]) is Some
            } else if j == 3 {
                Ownership::spec_decode(s[3]) is Some
            } else if j == 4 {
                PaymentStatus::spec_decode(s[4]) is Some
            } else {
                Form::spec_decode(s[5]) is Some
            }
        } else if s[1] == 'D' as u8 {
            if j == 2 {
                Dependency::spec_decode(s[2]) is Some
            } else if j == 3 {
                RedemptionConversion::spec_decode(s[3]) is Some
            } else if j == 4 {
                Income::spec_decode(s[4]) is Some
            } else {
                Form::spec_decode(s[5]) is Some
            }
        } else if s[1] == 'Y' as u8 {
            if j == 2 {
                Kind::spec_decode(s[2]) is Some
            } else if j == 3 {
                Distribution::spec_decode(s[3]) is Some
            } else if j == 4 {
                Repayment::spec_decode(s[4]) is Some
            } else {
                Underlying::spec_decode(s[5]) is Some
            }
        } else if s[1] == 'R' as u8 {
            if j == 2 {
                VotingRight::spec_decode(s[2]) is Some
            } else if j == 3 {
                Redemption::spec_decode(s[3]) is Some
            } else if j == 4 {
                Income::spec_decode(s[4]) is Some
            } else {
                Form::spec_decode(s[5]) is Some
            }
        } else if s[1] == 'V' as u8 {
            if j == 2 {
                VotingRight::spec_decode(s[2]) is Some
            } else if j == 3 {
                Redemption::spec_decode(s[3]) is Some
            } else if j == 4 {
                Income::spec_decode(s[4]) is Some
            } else {
                Form::spec_decode(s[5]) is Some
            }
        } else if s[1] == 'U' as u8 {
            if j == 2 {
                OpenClosed::spec_decode(s[2]) is Some
            } else if j == 3 {
                DistributionPolicy::spec_decode(s[3]) is Some
            } else if j == 4 {
                Asset::spec_decode(s[4]) is Some
            } else {
                UnitForm::spec_decode(s[5]) is Some
            }
        } else if s[1] == 'M' as u8 {
            if j == 2 {
                NotApplicable::spec_decode(s[2]) is Some
            } else if j == 3 {
                NotApplicable::spec_decode(s[3]) is Some
            } else if j == 4 {
                NotApplicable::spec_decode(s[4]) is Some
            } else {
                Form::spec_decode(s[5]) is Some
            }
        } else {
            true
        }
    }

    /// The group encoded by the six-byte code `s`, selected by byte 1, or
    /// the error for the first invalid position at or after byte 1.
    pub open spec fn spec_decode(s: Seq<u8>) -> Result<Group, Error> {
        if s.len() != 6 {
            Err(Error::InvalidLength)
        } else if s[1] == 'S' as u8 {
            match CommonAttributes::spec_decode(s) {
                Ok(a) => Ok(Group::Common(a)),
                Err(e) => Err(e),
            }
        } else if s[1] == 'P' as u8 {
            match PreferredAttributes::spec_decode(s) {
                Ok(a) => Ok(Group::Preferred(a)),
                Err(e) => Err(e),
            }
        } else if s[1] == 'C' as u8 {
            match ConvertibleAttributes::spec_decode(s) {
                Ok(a) => Ok(Group::Convertible(a)),
                Err(e) => Err(e),
            }
        } else if s[1] == 'F' as u8 {
            match PreferredConvertibleAttributes::spec_decode(s) {
                Ok(a) => Ok(Group::PreferedConvertible(a)),
                Err(e) => Err(e),
            }
        } else if s[1] == 'L' as u8 {
            match LlpAttributes::spec_decode(s) {
                Ok(a) => Ok(Group::LlpUnit(a)),
                Err(e) => Err(e),
            }
        } else if s[1] == 'D' as u8 {
            match ReceiptAttributes::spec_decode(s) {
                Ok(a) => Ok(Group::DepositoryReceipt(a)),
                Err(e) => Err(e),
            }
        } else if s[1] == 'Y' as u8 {
            match StructuredAttributes::spec_decode(s) {
                Ok(a) => Ok(Group::Structured(a)),
                Err(e) => Err(e),
            }
        } else if s[1] == 'R' as u8 {
            match PreferenceAttributes::spec_decode(s) {
                Ok(a) => Ok(Group::Preference(a)),
                Err(e) => Err(e),
            }
        } else if s[1] == 'V' as u8 {
            match PreferenceConvertibleAttributes::spec_decode(s) {
                Ok(a) => Ok(Group::PreferenceConvertible(a)),
                Err(e) => Err(e),
            }
        } else if s[1] == 'U' as u8 {
            match UnitAttributes::spec_decode(s) {
                Ok(a) => Ok(Group::Unit(a)),
                Err(e) => Err(e),
            }
        } else if s[1] == 'M' as u8 {
            match OtherAttributes::spec_decode(s) {
                Ok(a) => Ok(Group::Other(a)),
                Err(e) => Err(e),
            }
        } else {
            Err(Error::InvalidGroup(s[1]))
        }
    }

    /// Decode the group and attribute portion of a six-byte code of this
    /// category, failing on the first invalid position.
    pub fn from_bytes(src: &[u8]) -> (r: Result<Group, Error>)
        ensures
            r == Group::spec_decode(src@),
    {
        if src.len() != 6 {
            return Err(Error::InvalidLength);
        }
        if src[1] == 'S' as u8 {
            match CommonAttributes::from_bytes(src) {
                Ok(a) => Ok(Group::Common(a)),
                Err(e) => Err(e),
            }
        } else if src[1] == 'P' as u8 {
            match PreferredAttributes::from_bytes(src) {
                Ok(a) => Ok(Group::Preferred(a)),
                Err(e) => Err(e),
            }
        } else if src[1] == 'C' as u8 {
            match ConvertibleAttributes::from_bytes(src) {
                Ok(a) => Ok(Group::Convertible(a)),
                Err(e) => Err(e),
            }
        } else if src[1] == 'F' as u8 {
            match PreferredConvertibleAttributes::from_bytes(src) {
                Ok(a) => Ok(Group::PreferedConvertible(a)),
                Err(e) => Err(e),
            }
        } else if src[1] == 'L' as u8 {
            match LlpAttributes::from_bytes(src) {
                Ok(a) => Ok(Group::LlpUnit(a)),
                Err(e) => Err(e),
            }
        } else if src[1] == 'D' as u8 {
            match ReceiptAttributes::from_bytes(src) {
                Ok(a) => Ok(Group::DepositoryReceipt(a)),
                Err(e) => Err(e),
            }
        } else if src[1] == 'Y' as u8 {
            match StructuredAttributes::from_bytes(src) {
                Ok(a) => Ok(Group::Structured(a)),
                Err(e) => Err(e),
            }
        } else if src[1] == 'R' as u8 {
            match PreferenceAttributes::from_bytes(src) {
                Ok(a) => Ok(Group::Preference(a)),
                Err(e) => Err(e),
            }
        } else if src[1] == 'V' as u8 {
            match PreferenceConvertibleAttributes::from_bytes(src) {
                Ok(a) => Ok(Group::PreferenceConvertible(a)),
                Err(e) => Err(e),
            }
        } else if src[1] == 'U' as u8 {
            match UnitAttributes::from_bytes(src) {
                Ok(a) => Ok(Group::Unit(a)),
                Err(e) => Err(e),
            }
        } else if src[1] == 'M' as u8 {
            match OtherAttributes::from_bytes(src) {
                Ok(a) => Ok(Group::Other(a)),
                Err(e) => Err(e),
            }
        } else {
            Err(Error::InvalidGroup(src[1]))
        }
    }

    /// The full six-byte encoding of this group, category tag included.
    pub fn to_bytes(&self) -> (r: [u8; 6])
        ensures
            r@ == self.spec_bytes(),
    {
        match self {
            Group::Common(a) => {
                let t = a.to_bytes();
                let r = ['E' as u8, 'S' as u8, t[0], t[1], t[2], t[3]];
                proof {
                    assert(r@ =~= self.spec_bytes());
                }
                r
            },
            Group::Preferred(a) => {
                let t = a.to_bytes();
                let r = ['E' as u8, 'P' as u8, t[0], t[1], t[2], t[3]];
                proof {
                    assert(r@ =~= self.spec_bytes());
                }
                r
            },
            Group::Convertible(a) => {
                let t = a.to_bytes();
                let r = ['E' as u8, 'C' as u8, t[0], t[1], t[2], t[3]];
                proof {
                    assert(r@ =~= self.spec_bytes());
                }
                r
            },
            Group::PreferedConvertible(a) => {
                let t = a.to_bytes();
                let r = ['E' as u8, 'F' as u8, t[0], t[1], t[2], t[3]];
                proof {
                    assert(r@ =~= self.spec_bytes());
                }
                r
            },
            Group::LlpUnit(a) => {
                let t = a.to_bytes();
                let r = ['E' as u8, 'L' as u8, t[0], t[1], t[2], t[3]];
                proof {
                    assert(r@ =~= self.spec_bytes());
                }
                r
            },
            Group::DepositoryReceipt(a) => {
                let t = a.to_bytes();
                let r = ['E' as u8, 'D' as u8, t[0], t[1], t[2], t[3]];
                proof {
                    assert(r@ =~= self.spec_bytes());
                }
                r
            },
            Group::Structured(a) => {
                let t = a.to_bytes();
                let r = ['E' as u8, 'Y' as u8, t[0], t[1], t[2], t[3]];
                proof {
                    assert(r@ =~= self.spec_bytes());
                }
                r
            },
            Group::Preference(a) => {
                let t = a.to_bytes();
                let r = ['E' as u8, 'R' as u8, t[0], t[1], t[2], t[3]];
                proof {
                    assert(r@ =~= self.spec_bytes());
                }
                r
            },
            Group::PreferenceConvertible(a) => {
                let t = a.to_bytes();
                let r = ['E' as u8, 'V' as u8, t[0], t[1], t[2], t[3]];
                proof {
                    assert(r@ =~= self.spec_bytes());
                }
                r
            },
            Group::Unit(a) => {
                let t = a.to_bytes();
                let r = ['E' as u8, 'U' as u8, t[0], t[1], t[2], t[3]];
                proof {
                    assert(r@ =~= self.spec_bytes());
                }
                r
            },
            Group::Other(a) => {
                let t = a.to_bytes();
                let r = ['E' as u8, 'M' as u8, t[0], t[1], t[2], t[3]];
                proof {
                    assert(r@ =~= self.spec_bytes());
                }
                r
            },
        }
    }

    /// Whether the group value is [`Group::Common`].
    pub fn is_common(&self) -> (r: bool)
        ensures
            r == (self is Common),
    {
        matches!(self, Group::Common(_))
    }

    /// Whether the group value is [`Group::Preferred`].
    pub fn is_preferred(&self) -> (r: bool)
        ensures
            r == (self is Preferred),
    {
        matches!(self, Group::Preferred(_))
    }

    /// Whether the group value is [`Group::Convertible`].
    pub fn is_convertible(&self) -> (r: bool)
        ensures
            r == (self is Convertible),
    {
        matches!(self, Group::Convertible(_))
    }

    /// Whether the group value is [`Group::PreferedConvertible`].
    pub fn is_prefered_convertible(&self) -> (r: bool)
        ensures
            r == (self is PreferedConvertible),
    {
        matches!(self, Group::PreferedConvertible(_))
    }

    /// Whether the group value is [`Group::LlpUnit`].
    pub fn is_llp_unit(&self) -> (r: bool)
        ensures
            r == (self is LlpUnit),
    {
        matches!(self, Group::LlpUnit(_))
    }

    /// Whether the group value is [`Group::DepositoryReceipt`].
    pub fn is_depository_receipt(&self) -> (r: bool)
        ensures
            r == (self is DepositoryReceipt),
    {
        matches!(self, Group::DepositoryReceipt(_))
    }

    /// Whether the group value is [`Group::Structured`].
    pub fn is_structured(&self) -> (r: bool)
        ensures
            r == (self is Structured),
    {
        matches!(self, Group::Structured(_))
    }

    /// Whether the group value is [`Group::Preference`].
    pub fn is_preference(&self) -> (r: bool)
        ensures
            r == (self is Preference),
    {
        matches!(self, Group::Preference(_))
    }

    /// Whether the group value is [`Group::PreferenceConvertible`].
    pub fn is_preference_convertible(&self) -> (r: bool)
        ensures
            r == (self is PreferenceConvertible),
    {
        matches!(self, Group::PreferenceConvertible(_))
    }

    /// Whether the group value is [`Group::Unit`].
    pub fn is_unit(&self) -> (r: bool)
        ensures
            r == (self is Unit),
    {
        matches!(self, Group::Unit(_))
    }

    /// Whether the group value is [`Group::Other`].
    pub fn is_other(&self) -> (r: bool)
        ensures
            r == (self is Other),
    {
        matches!(self, Group::Other(_))
    }
}

/// The attributes available to common equities.
#[derive(Clone, Copy, Debug, Eq, Hash, Ord, PartialEq, PartialOrd, Structural)]
pub struct CommonAttributes {
    /// Voting right (indicates the kind of voting power conferred to the shareholder).
    pub voting_right: VotingRight,
    /// Ownership/transfer/sales restrictions.
    pub ownership: Ownership,
    /// Payment status.
    pub payment_status: PaymentStatus,
    /// Form (negotiability, transmission).
    pub form: Form,
}

impl CommonAttributes {
    /// The four attribute bytes, in position order.
    pub open spec fn spec_bytes(self) -> Seq<u8> {
        seq![
            self.voting_right.spec_byte(),
            self.ownership.spec_byte(),
            self.payment_status.spec_byte(),
            self.form.spec_byte(),
        ]
    }

    /// The value encoded in positions 2-5 of the six-byte code `s`, or
    /// the error for the first invalid position.
    pub open spec fn spec_decode(s: Seq<u8>) -> Result<CommonAttributes, Error> {
        if s.len() != 6 {
            Err(Error::InvalidLength)
        } else {
            match VotingRight::spec_decode(s[2]) {
                None => Err(Error::InvalidAttribute(2, s[2])),
                Some(voting_right) => match Ownership::spec_decode(s[3]) {
                    None => Err(Error::InvalidAttribute(3, s[3])),
                    Some(ownership) => match PaymentStatus::spec_decode(s[4]) {
                        None => Err(Error::InvalidAttribute(4, s[4])),
                        Some(payment_status) => match Form::spec_decode(s[5]) {
                            None => Err(Error::InvalidAttribute(5, s[5])),
                            Some(form) => Ok(CommonAttributes { voting_right, ownership, payment_status, form }),
                        },
                    },
                },
            }
        }
    }

    /// Decode attribute positions 2-5 of a full six-byte code, failing
    /// on the first invalid position.
    pub fn from_bytes(src: &[u8]) -> (r: Result<CommonAttributes, Error>)
        ensures
            r == CommonAttributes::spec_decode(src@),
    {
        if src.len() != 6 {
            return Err(Error::InvalidLength);
        }
        let voting_right = match VotingRight::from_byte(src[2], 2) {
            Ok(a) => a,
            Err(e) => {
                return Err(e);
            },
        };
        let ownership = match Ownership::from_byte(src[3], 3) {
            Ok(a) => a,
            Err(e) => {
                return Err(e);
            },
        };
        let payment_status = match PaymentStatus::from_byte(src[4], 4) {
            Ok(a) => a,
            Err(e) => {
                return Err(e);
            },
        };
        let form = match Form::from_byte(src[5], 5) {
            Ok(a) => a,
            Err(e) => {
                return Err(e);
            },
        };
        Ok(CommonAttributes { voting_right, ownership, payment_status, form })
    }

    /// The four attribute bytes, in position order.
    pub fn to_bytes(&self) -> (r: [u8; 4])
        ensures
            r@ == self.spec_bytes(),
    {
        let r = [
            self.voting_right.to_byte(),
            self.ownership.to_byte(),
            self.payment_status.to_byte(),
            self.form.to_byte(),
        ];
        proof {
            assert(r@ =~= self.spec_bytes());
        }
        r
    }
}

/// The attributes available to preferred equities.
#[derive(Clone, Copy, Debug, Eq, Hash, Ord, PartialEq, PartialOrd, Structural)]
pub struct PreferredAttributes {
    /// Voting right (indicates the kind of voting power conferred to the shareholder).
    pub voting_right: VotingRight,
    /// Redemption (indicates the retirement provisions made for the shares).
    pub redemption: Redemption,
    /// Income (indicates the kind of dividend income the shareholders are entitled to).
    pub income: Income,
    /// Form (negotiability, transmission).
    pub form: Form,
}

impl PreferredAttributes {
    /// The four attribute bytes, in position order.
    pub open spec fn spec_bytes(self) -> Seq<u8> {
        seq![
            self.voting_right.spec_byte(),
            self.redemption.spec_byte(),
            self.income.spec_byte(),
            self.form.spec_byte(),
        ]
    }

    /// The value encoded in positions 2-5 of the six-byte code `s`, or
    /// the error for the first invalid position.
    pub open spec fn spec_decode(s: Seq<u8>) -> Result<PreferredAttributes, Error> {
        if s.len() != 6 {
            Err(Error::InvalidLength)
        } else {
            match VotingRight::spec_decode(s[2]) {
                None => Err(Error::InvalidAttribute(2, s[2])),
                Some(voting_right) => match Redemption::spec_decode(s[3]) {
                    None => Err(Error::InvalidAttribute(3, s[3])),
                    Some(redemption) => match Income::spec_decode(s[4]) {
                        None => Err(Error::InvalidAttribute(4, s[4])),
                        Some(income) => match Form::spec_decode(s[5]) {
                            None => Err(Error::InvalidAttribute(5, s[5])),
                            Some(form) => Ok(PreferredAttributes { voting_right, redemption, income, form }),
                        },
                    },
                },
            }
        }
    }

    /// Decode attribute positions 2-5 of a full six-byte code, failing
    /// on the first invalid position.
    pub fn from_bytes(src: &[u8]) -> (r: Result<PreferredAttributes, Error>)
        ensures
            r == PreferredAttributes::spec_decode(src@),
    {
        if src.len() != 6 {
            return Err(Error::InvalidLength);
        }
        let voting_right = match VotingRight::from_byte(src[2], 2) {
            Ok(a) => a,
            Err(e) => {
                return Err(e);
            },
        };
        let redemption = match Redemption::from_byte(src[3], 3) {
            Ok(a) => a,
            Err(e) => {
                return Err(e);
            },
        };
        let income = match Income::from_byte(src[4], 4) {
            Ok(a) => a,
            Err(e) => {
                return Err(e);
            },
        };
        let form = match Form::from_byte(src[5], 5) {
            Ok(a) => a,
            Err(e) => {
                return Err(e);
            },
        };
        Ok(PreferredAttributes { voting_right, redemption, income, form })
    }

    /// The four attribute bytes, in position order.
    pub fn to_bytes(&self) -> (r: [u8; 4])
        ensures
            r@ == self.spec_bytes(),
    {
        let r = [
            self.voting_right.to_byte(),
            self.redemption.to_byte(),
            self.income.to_byte(),
            self.form.to_byte(),
        ];
        proof {
            assert(r@ =~= self.spec_bytes());
        }
        r
    }
}

/// The attributes available to convertible equities.
#[derive(Clone, Copy, Debug, Eq, Hash, Ord, PartialEq, PartialOrd, Structural)]
pub struct ConvertibleAttributes {
    /// Voting right (indicates the kind of voting power conferred to the shareholder).
    pub voting_right: VotingRight,
    /// Ownership/transfer/sales restrictions.
    pub ownership: Ownership,
    /// Payment status.
    pub payment_status: PaymentStatus,
    /// Form (negotiability, transmission).
    pub form: Form,
}

impl ConvertibleAttributes {
    /// The four attribute bytes, in position order.
    pub open spec fn spec_bytes(self) -> Seq<u8> {
        seq![
            self.voting_right.spec_byte(),
            self.ownership.spec_byte(),
            self.payment_status.spec_byte(),
            self.form.spec_byte(),
        ]
    }

    /// The value encoded in positions 2-5 of the six-byte code `s`, or
    /// the error for the first invalid position.
    pub open spec fn spec_decode(s: Seq<u8>) -> Result<ConvertibleAttributes, Error> {
        if s.len() != 6 {
            Err(Error::InvalidLength)
        } else {
            match VotingRight::spec_decode(s[2]) {
                None => Err(Error::InvalidAttribute(2, s[2])),
                Some(voting_right) => match Ownership::spec_decode(s[3]) {
                    None => Err(Error::InvalidAttribute(3, s[3])),
                    Some(ownership) => match PaymentStatus::spec_decode(s[4]) {
                        None => Err(Error::InvalidAttribute(4, s[4])),
                        Some(payment_status) => match Form::spec_decode(s[5]) {
                            None => Err(Error::InvalidAttribute(5, s[5])),
                            Some(form) => Ok(ConvertibleAttributes { voting_right, ownership, payment_status, form }),
                        },
                    },
                },
            }
        }
    }

    /// Decode attribute positions 2-5 of a full six-byte code, failing
    /// on the first invalid position.
    pub fn from_bytes(src: &[u8]) -> (r: Result<ConvertibleAttributes, Error>)
        ensures
            r == ConvertibleAttributes::spec_decode(src@),
    {
        if src.len() != 6 {
            return Err(Error::InvalidLength);
        }
        let voting_right = match VotingRight::from_byte(src[2], 2) {
            Ok(a) => a,
            Err(e) => {
                return Err(e);
            },
        };
        let ownership = match Ownership::from_byte(src[3], 3) {
            Ok(a) => a,
            Err(e) => {
                return Err(e);
            },
        };
        let payment_status = match PaymentStatus::from_byte(src[4], 4) {
            Ok(a) => a,
            Err(e) => {
                return Err(e);
            },
        };
        let form = match Form::from_byte(src[5], 5) {
            Ok(a) => a,
            Err(e) => {
                return Err(e);
            },
        };
        Ok(ConvertibleAttributes { voting_right, ownership, payment_status, form })
    }

    /// The four attribute bytes, in position order.
    pub fn to_bytes(&self) -> (r: [u8; 4])
        ensures
            r@ == self.spec_bytes(),
    {
        let r = [
            self.voting_right.to_byte(),
            self.ownership.to_byte(),
            self.payment_status.to_byte(),
            self.form.to_byte(),
        ];
        proof {
            assert(r@ =~= self.spec_bytes());
        }
        r
    }
}

/// The attributes available to preferred convertible equities.
#[derive(Clone, Copy, Debug, Eq, Hash, Ord, PartialEq, PartialOrd, Structural)]
pub struct PreferredConvertibleAttributes {
    /// Voting right (indicates the kind of voting power conferred to the shareholder).
    pub voting_right: VotingRight,
    /// Redemption (indicates the retirement provisions made for the shares).
    pub redemption: Redemption,
    /// Income (indicates the kind of dividend income the shareholders are entitled to).
    pub income: Income,
    /// Form (negotiability, transmission).
    pub form: Form,
}

impl PreferredConvertibleAttributes {
    /// The four attribute bytes, in position order.
    pub open spec fn spec_bytes(self) -> Seq<u8> {
        seq![
            self.voting_right.spec_byte(),
            self.redemption.spec_byte(),
            self.income.spec_byte(),
            self.form.spec_byte(),
        ]
    }

    /// The value encoded in positions 2-5 of the six-byte code `s`, or
    /// the error for the first invalid position.
    pub open spec fn spec_decode(s: Seq<u8>) -> Result<PreferredConvertibleAttributes, Error> {
        if s.len() != 6 {
            Err(Error::InvalidLength)
        } else {
            match VotingRight::spec_decode(s[2]) {
                None => Err(Error::InvalidAttribute(2, s[2])),
                Some(voting_right) => match Redemption::spec_decode(s[3]) {
                    None => Err(Error::InvalidAttribute(3, s[3])),
                    Some(redemption) => match Income::spec_decode(s[4]) {
                        None => Err(Error::InvalidAttribute(4, s[4])),
                        Some(income) => match Form::spec_decode(s[5]) {
                            None => Err(Error::InvalidAttribute(5, s[5])),
                            Some(form) => Ok(PreferredConvertibleAttributes { voting_right, redemption, income, form }),
                        },
                    },
                },
            }
        }
    }

    /// Decode attribute positions 2-5 of a full six-byte code, failing
    /// on the first invalid position.
    pub fn from_bytes(src: &[u8]) -> (r: Result<PreferredConvertibleAttributes, Error>)
        ensures
            r == PreferredConvertibleAttributes::spec_decode(src@),
    {
        if src.len() != 6 {
            return Err(Error::InvalidLength);
        }
        let voting_right = match VotingRight::from_byte(src[2], 2) {
            Ok(a) => a,
            Err(e) => {
                return Err(e);
            },
        };
        let redemption = match Redemption::from_byte(src[3], 3) {
            Ok(a) => a,
            Err(e) => {
                return Err(e);
            },
        };
        let income = match Income::from_byte(src[4], 4) {
            Ok(a) => a,
            Err(e) => {
                return Err(e);
            },
        };
        let form = match Form::from_byte(src[5], 5) {
            Ok(a) => a,
            Err(e) => {
                return Err(e);
            },
        };
        Ok(PreferredConvertibleAttributes { voting_right, redemption, income, form })
    }

    /// The four attribute bytes, in position order.
    pub fn to_bytes(&self) -> (r: [u8; 4])
        ensures
            r@ == self.spec_bytes(),
    {
        let r = [
            self.voting_right.to_byte(),
            self.redemption.to_byte(),
            self.income.to_byte(),
            self.form.to_byte(),
        ];
        proof {
            assert(r@ =~= self.spec_bytes());
        }
        r
    }
}

/// The attributes available to limited partnership units.
#[derive(Clone, Copy, Debug, Eq, Hash, Ord, PartialEq, PartialOrd, Structural)]
pub struct LlpAttributes {
    /// Voting right (indicates the kind of voting power conferred to the shareholder).
    pub voting_right: VotingRight,
    /// Ownership/transfer/sales restrictions.
    pub ownership: Ownership,
    /// Payment status.
    pub payment_status: PaymentStatus,
    /// Form (negotiability, transmission).
    pub form: Form,
}

impl LlpAttributes {
    /// The four attribute bytes, in position order.
    pub open spec fn spec_bytes(self) -> Seq<u8> {
        seq![
            self.voting_right.spec_byte(),
            self.ownership.spec_byte(),
            self.payment_status.spec_byte(),
            self.form.spec_byte(),
        ]
    }

    /// The value encoded in positions 2-5 of the six-byte code `s`, or
    /// the error for the first invalid position.
    pub open spec fn spec_decode(s: Seq<u8>) -> Result<LlpAttributes, Error> {
        if s.len() != 6 {
            Err(Error::InvalidLength)
        } else {
            match VotingRight::spec_decode(s[2]) {
                None => Err(Error::InvalidAttribute(2, s[2])),
                Some(voting_right) => match Ownership::spec_decode(s[3]) {
                    None => Err(Error::InvalidAttribute(3, s[3])),
                    Some(ownership) => match PaymentStatus::spec_decode(s[4]) {
                        None => Err(Error::InvalidAttribute(4, s[4])),
                        Some(payment_status) => match Form::spec_decode(s[5]) {
                            None => Err(Error::InvalidAttribute(5, s[5])),
                            Some(form) => Ok(LlpAttributes { voting_right, ownership, payment_status, form }),
                        },
                    },
                },
            }
        }
    }

    /// Decode attribute positions 2-5 of a full six-byte code, failing
    /// on the first invalid position.
    pub fn from_bytes(src: &[u8]) -> (r: Result<LlpAttributes, Error>)
        ensures
            r == LlpAttributes::spec_decode(src@),
    {
        if src.len() != 6 {
            return Err(Error::InvalidLength);
        }
        let voting_right = match VotingRight::from_byte(src[2], 2) {
            Ok(a) => a,
            Err(e) => {
                return Err(e);
            },
        };
        let ownership = match Ownership::from_byte(src[3], 3) {
            Ok(a) => a,
            Err(e) => {
                return Err(e);
            },
        };
        let payment_status = match PaymentStatus::from_byte(src[4], 4) {
            Ok(a) => a,
            Err(e) => {
                return Err(e);
            },
        };
        let form = match Form::from_byte(src[5], 5) {
            Ok(a) => a,
            Err(e) => {
                return Err(e);
            },
        };
        Ok(LlpAttributes { voting_right, ownership, payment_status, form })
    }

    /// The four attribute bytes, in position order.
    pub fn to_bytes(&self) -> (r: [u8; 4])
        ensures
            r@ == self.spec_bytes(),
    {
        let r = [
            self.voting_right.to_byte(),
            self.ownership.to_byte(),
            self.payment_status.to_byte(),
            self.form.to_byte(),
        ];
        proof {
            assert(r@ =~= self.spec_bytes());
        }
        r
    }
}

/// The attributes available to depository receipts on equities.
#[derive(Clone, Copy, Debug, Eq, Hash, Ord, PartialEq, PartialOrd, Structural)]
pub struct ReceiptAttributes {
    /// Instrument dependency.
    pub dependency: Dependency,
    /// Redemption/conversion of the underlying assets.
    pub redemption: RedemptionConversion,
    /// Income (indicates the kind of dividend income the shareholders are entitled to).
    pub income: Income,
    /// Form (negotiability, transmission).
    pub form: Form,
}

impl ReceiptAttributes {
    /// The four attribute bytes, in position order.
    pub open spec fn spec_bytes(self) -> Seq<u8> {
        seq![
            self.dependency.spec_byte(),
            self.redemption.spec_byte(),
            self.income.spec_byte(),
            self.form.spec_byte(),
        ]
    }

    /// The value encoded in positions 2-5 of the six-byte code `s`, or
    /// the error for the first invalid position.
    pub open spec fn spec_decode(s: Seq<u8>) -> Result<ReceiptAttributes, Error> {
        if s.len() != 6 {
            Err(Error::InvalidLength)
        } else {
            match Dependency::spec_decode(s[2]) {
                None => Err(Error::InvalidAttribute(2, s[2])),
                Some(dependency) => match RedemptionConversion::spec_decode(s[3]) {
                    None => Err(Error::InvalidAttribute(3, s[3])),
                    Some(redemption) => match Income::spec_decode(s[4]) {
                        None => Err(Error::InvalidAttribute(4, s[4])),
                        Some(income) => match Form::spec_decode(s[5]) {
                            None => Err(Error::InvalidAttribute(5, s[5])),
                            Some(form) => Ok(ReceiptAttributes { dependency, redemption, income, form }),
                        },
                    },
                },
            }
        }
    }

    /// Decode attribute positions 2-5 of a full six-byte code, failing
    /// on the first invalid position.
    pub fn from_bytes(src: &[u8]) -> (r: Result<ReceiptAttributes, Error>)
        ensures
            r == ReceiptAttributes::spec_decode(src@),
    {
        if src.len() != 6 {
            return Err(Error::InvalidLength);
        }
        let dependency = match Dependency::from_byte(src[2], 2) {
            Ok(a) => a,
            Err(e) => {
                return Err(e);
            },
        };
        let redemption = match RedemptionConversion::from_byte(src[3], 3) {
            Ok(a) => a,
            Err(e) => {
                return Err(e);
            },
        };
        let income = match Income::from_byte(src[4], 4) {
            Ok(a) => a,
            Err(e) => {
                return Err(e);
            },
        };
        let form = match Form::from_byte(src[5], 5) {
            Ok(a) => a,
            Err(e) => {
                return Err(e);
            },
        };
        Ok(ReceiptAttributes { dependency, redemption, income, form })
    }

    /// The four attribute bytes, in position order.
    pub fn to_bytes(&self) -> (r: [u8; 4])
        ensures
            r@ == self.spec_bytes(),
    {
        let r = [
            self.dependency.to_byte(),
            self.redemption.to_byte(),
            self.income.to_byte(),
            self.form.to_byte(),
        ];
        proof {
            assert(r@ =~= self.spec_bytes());
        }
        r
    }
}

/// The attributes available to structured equities.
#[derive(Clone, Copy, Debug, Eq, Hash, Ord, PartialEq, PartialOrd, Structural)]
pub struct StructuredAttributes {
    /// Structured instrument type.
    pub kind: Kind,
    /// Distribution style.
    pub distribution: Distribution,
    /// Repayment style.
    pub repayment: Repayment,
    /// Underlying asset type.
    pub underlying: Underlying,
}

impl StructuredAttributes {
    /// The four attribute bytes, in position order.
    pub open spec fn spec_bytes(self) -> Seq<u8> {
        seq![
            self.kind.spec_byte(),
            self.distribution.spec_byte(),
            self.repayment.spec_byte(),
            self.underlying.spec_byte(),
        ]
    }

    /// The value encoded in positions 2-5 of the six-byte code `s`, or
    /// the error for the first invalid position.
    pub open spec fn spec_decode(s: Seq<u8>) -> Result<StructuredAttributes, Error> {
        if s.len() != 6 {
            Err(Error::InvalidLength)
        } else {
            match Kind::spec_decode(s[2]) {
                None => Err(Error::InvalidAttribute(2, s[2])),
                Some(kind) => match Distribution::spec_decode(s[3]) {
                    None => Err(Error::InvalidAttribute(3, s[3])),
                    Some(distribution) => match Repayment::spec_decode(s[4]) {
                        None => Err(Error::InvalidAttribute(4, s[4])),
                        Some(repayment) => match Underlying::spec_decode(s[5]) {
                            None => Err(Error::InvalidAttribute(5, s[5])),
                            Some(underlying) => Ok(StructuredAttributes { kind, distribution, repayment, underlying }),
                        },
                    },
                },
            }
        }
    }

    /// Decode attribute positions 2-5 of a full six-byte code, failing
    /// on the first invalid position.
    pub fn from_bytes(src: &[u8]) -> (r: Result<StructuredAttributes, Error>)
        ensures
            r == StructuredAttributes::spec_decode(src@),
    {
        if src.len() != 6 {
            return Err(Error::InvalidLength);
        }
        let kind = match Kind::from_byte(src[2], 2) {
            Ok(a) => a,
            Err(e) => {
                return Err(e);
            },
        };
        let distribution = match Distribution::from_byte(src[3], 3) {
            Ok(a) => a,
            Err(e) => {
                return Err(e);
            },
        };
        let repayment = match Repayment::from_byte(src[4], 4) {
            Ok(a) => a,
            Err(e) => {
                return Err(e);
            },
        };
        let underlying = match Underlying::from_byte(src[5], 5) {
            Ok(a) => a,
            Err(e) => {
                return Err(e);
            },
        };
        Ok(StructuredAttributes { kind, distribution, repayment, underlying })
    }

    /// The four attribute bytes, in position order.
    pub fn to_bytes(&self) -> (r: [u8; 4])
        ensures
            r@ == self.spec_bytes(),
    {
        let r = [
            self.kind.to_byte(),
            self.distribution.to_byte(),
            self.repayment.to_byte(),
            self.underlying.to_byte(),
        ];
        proof {
            assert(r@ =~= self.spec_bytes());
        }
        r
    }
}

/// The attributes available to preference equities.
#[derive(Clone, Copy, Debug, Eq, Hash, Ord, PartialEq, PartialOrd, Structural)]
pub struct PreferenceAttributes {
    /// Voting right (indicates the kind of voting power conferred to the shareholder).
    pub voting_right: VotingRight,
    /// Redemption (indicates the retirement provisions made for the shares).
    pub redemption: Redemption,
    /// Income (indicates the kind of dividend income the shareholders are entitled to).
    pub income: Income,
    /// Form (negotiability, transmission).
    pub form: Form,
}

impl PreferenceAttributes {
    /// The four attribute bytes, in position order.
    pub open spec fn spec_bytes(self) -> Seq<u8> {
        seq![
            self.voting_right.spec_byte(),
            self.redemption.spec_byte(),
            self.income.spec_byte(),
            self.form.spec_byte(),
        ]
    }

    /// The value encoded in positions 2-5 of the six-byte code `s`, or
    /// the error for the first invalid position.
    pub open spec fn spec_decode(s: Seq<u8>) -> Result<PreferenceAttributes, Error> {
        if s.len() != 6 {
            Err(Error::InvalidLength)
        } else {
            match VotingRight::spec_decode(s[2]) {
                None => Err(Error::InvalidAttribute(2, s[2])),
                Some(voting_right) => match Redemption::spec_decode(s[3]) {
                    None => Err(Error::InvalidAttribute(3, s[3])),
                    Some(redemption) => match Income::spec_decode(s[4]) {
                        None => Err(Error::InvalidAttribute(4, s[4])),
                        Some(income) => match Form::spec_decode(s[5]) {
                            None => Err(Error::InvalidAttribute(5, s[5])),
                            Some(form) => Ok(PreferenceAttributes { voting_right, redemption, income, form }),
                        },
                    },
                },
            }
        }
    }

    /// Decode attribute positions 2-5 of a full six-byte code, failing
    /// on the first invalid position.
    pub fn from_bytes(src: &[u8]) -> (r: Result<PreferenceAttributes, Error>)
        ensures
            r == PreferenceAttributes::spec_decode(src@),
    {
        if src.len() != 6 {
            return Err(Error::InvalidLength);
        }
        let voting_right = match VotingRight::from_byte(src[2], 2) {
            Ok(a) => a,
            Err(e) => {
                return Err(e);
            },
        };
        let redemption = match Redemption::from_byte(src[3], 3) {
            Ok(a) => a,
            Err(e) => {
                return Err(e);
            },
        };
        let income = match Income::from_byte(src[4], 4) {
            Ok(a) => a,
            Err(e) => {
                return Err(e);
            },
        };
        let form = match Form::from_byte(src[5], 5) {
            Ok(a) => a,
            Err(e) => {
                return Err(e);
            },
        };
        Ok(PreferenceAttributes { voting_right, redemption, income, form })
    }

    /// The four attribute bytes, in position order.
    pub fn to_bytes(&self) -> (r: [u8; 4])
        ensures
            r@ == self.spec_bytes(),
    {
        let r = [
            self.voting_right.to_byte(),
            self.redemption.to_byte(),
            self.income.to_byte(),
            self.form.to_byte(),
        ];
        proof {
            assert(r@ =~= self.spec_bytes());
        }
        r
    }
}

/// The attributes available to preference convertible equities.
#[derive(Clone, Copy, Debug, Eq, Hash, Ord, PartialEq, PartialOrd, Structural)]
pub struct PreferenceConvertibleAttributes {
    /// Voting right (indicates the kind of voting power conferred to the shareholder).
    pub voting_right: VotingRight,
    /// Redemption (indicates the retirement provisions made for the shares).
    pub redemption: Redemption,
    /// Income (indicates the kind of dividend income the shareholders are entitled to).
    pub income: Income,
    /// Form (negotiability, transmission).
    pub form: Form,
}

impl PreferenceConvertibleAttributes {
    /// The four attribute bytes, in position order.
    pub open spec fn spec_bytes(self) -> Seq<u8> {
        seq![
            self.voting_right.spec_byte(),
            self.redemption.spec_byte(),
            self.income.spec_byte(),
            self.form.spec_byte(),
        ]
    }

    /// The value encoded in positions 2-5 of the six-byte code `s`, or
    /// the error for the first invalid position.
    pub open spec fn spec_decode(s: Seq<u8>) -> Result<PreferenceConvertibleAttributes, Error> {
        if s.len() != 6 {
            Err(Error::InvalidLength)
        } else {
            match VotingRight::spec_decode(s[2]) {
                None => Err(Error::InvalidAttribute(2, s[2])),
                Some(voting_right) => match Redemption::spec_decode(s[3]) {
                    None => Err(Error::InvalidAttribute(3, s[3])),
                    Some(redemption) => match Income::spec_decode(s[4]) {
                        None => Err(Error::InvalidAttribute(4, s[4])),
                        Some(income) => match Form::spec_decode(s[5]) {
                            None => Err(Error::InvalidAttribute(5, s[5])),
                            Some(form) => Ok(PreferenceConvertibleAttributes { voting_right, redemption, income, form }),
                        },
                    },
                },
            }
        }
    }

    /// Decode attribute positions 2-5 of a full six-byte code, failing
    /// on the first invalid position.
    pub fn from_bytes(src: &[u8]) -> (r: Result<PreferenceConvertibleAttributes, Error>)
        ensures
            r == PreferenceConvertibleAttributes::spec_decode(src@),
    {
        if src.len() != 6 {
            return Err(Error::InvalidLength);
        }
        let voting_right = match VotingRight::from_byte(src[2], 2) {
            Ok(a) => a,
            Err(e) => {
                return Err(e);
            },
        };
        let redemption = match Redemption::from_byte(src[3], 3) {
            Ok(a) => a,
            Err(e) => {
                return Err(e);
            },
        };
        let income = match Income::from_byte(src[4], 4) {
            Ok(a) => a,
            Err(e) => {
                return Err(e);
            },
        };
        let form = match Form::from_byte(src[5], 5) {
            Ok(a) => a,
            Err(e) => {
                return Err(e);
            },
        };
        Ok(PreferenceConvertibleAttributes { voting_right, redemption, income, form })
    }

    /// The four attribute bytes, in position order.
    pub fn to_bytes(&self) -> (r: [u8; 4])
        ensures
            r@ == self.spec_bytes(),
    {
        let r = [
            self.voting_right.to_byte(),
            self.redemption.to_byte(),
            self.income.to_byte(),
            self.form.to_byte(),
        ];
        proof {
            assert(r@ =~= self.spec_bytes());
        }
        r
    }
}

/// The attributes available to units from unit trusts, mutual funds, OPCVM or OICVM.
#[derive(Clone, Copy, Debug, Eq, Hash, Ord, PartialEq, PartialOrd, Structural)]
pub struct UnitAttributes {
    /// Closed/open-end status.
    pub open_closed: OpenClosed,
    /// Distribution policy.
    pub distribution: DistributionPolicy,
    /// The assets of the units.
    pub assets: Asset,
    /// The form of the units.
    pub form: UnitForm,
}

impl UnitAttributes {
    /// The four attribute bytes, in position order.
    pub open spec fn spec_bytes(self) -> Seq<u8> {
        seq![
            self.open_closed.spec_byte(),
            self.distribution.spec_byte(),
            self.assets.spec_byte(),
            self.form.spec_byte(),
        ]
    }

    /// The value encoded in positions 2-5 of the six-byte code `s`, or
    /// the error for the first invalid position.
    pub open spec fn spec_decode(s: Seq<u8>) -> Result<UnitAttributes, Error> {
        if s.len() != 6 {
            Err(Error::InvalidLength)
        } else {
            match OpenClosed::spec_decode(s[2]) {
                None => Err(Error::InvalidAttribute(2, s[2])),
                Some(open_closed) => match DistributionPolicy::spec_decode(s[3]) {
                    None => Err(Error::InvalidAttribute(3, s[3])),
                    Some(distribution) => match Asset::spec_decode(s[4]) {
                        None => Err(Error::InvalidAttribute(4, s[4])),
                        Some(assets) => match UnitForm::spec_decode(s[5]) {
                            None => Err(Error::InvalidAttribute(5, s[5])),
                            Some(form) => Ok(UnitAttributes { open_closed, distribution, assets, form }),
                        },
                    },
                },
            }
        }
    }

    /// Decode attribute positions 2-5 of a full six-byte code, failing
    /// on the first invalid position.
    pub fn from_bytes(src: &[u8]) -> (r: Result<UnitAttributes, Error>)
        ensures
            r == UnitAttributes::spec_decode(src@),
    {
        if src.len() != 6 {
            return Err(Error::InvalidLength);
        }
        let open_closed = match OpenClosed::from_byte(src[2], 2) {
            Ok(a) => a,
            Err(e) => {
                return Err(e);
            },
        };
        let distribution = match DistributionPolicy::from_byte(src[3], 3) {
            Ok(a) => a,
            Err(e) => {
                return Err(e);
            },
        };
        let assets = match Asset::from_byte(src[4], 4) {
            Ok(a) => a,
            Err(e) => {
                return Err(e);
            },
        };
        let form = match UnitForm::from_byte(src[5], 5) {
            Ok(a) => a,
            Err(e) => {
                return Err(e);
            },
        };
        Ok(UnitAttributes { open_closed, distribution, assets, form })
    }

    /// The four attribute bytes, in position order.
    pub fn to_bytes(&self) -> (r: [u8; 4])
        ensures
            r@ == self.spec_bytes(),
    {
        let r = [
            self.open_closed.to_byte(),
            self.distribution.to_byte(),
            self.assets.to_byte(),
            self.form.to_byte(),
        ];
        proof {
            assert(r@ =~= self.spec_bytes());
        }
        r
    }
}

/// The attributes available to other equities.
#[derive(Clone, Copy, Debug, Eq, Hash, Ord, PartialEq, PartialOrd, Structural)]
pub struct OtherAttributes {
    /// An unused attribute.
    pub attr1: NotApplicable,
    /// An unused attribute.
    pub attr2: NotApplicable,
    /// An unused attribute.
    pub attr3: NotApplicable,
    /// Form (negotiability, transmission).
    pub form: Form,
}

impl OtherAttributes {
    /// The four attribute bytes, in position order.
    pub open spec fn spec_bytes(self) -> Seq<u8> {
        seq![
            self.attr1.spec_byte(),
            self.attr2.spec_byte(),
            self.attr3.spec_byte(),
            self.form.spec_byte(),
        ]
    }

    /// The value encoded in positions 2-5 of the six-byte code `s`, or
    /// the error for the first invalid position.
    pub open spec fn spec_decode(s: Seq<u8>) -> Result<OtherAttributes, Error> {
        if s.len() != 6 {
            Err(Error::InvalidLength)
        } else {
            match NotApplicable::spec_decode(s[2]) {
                None => Err(Error::InvalidAttribute(2, s[2])),
                Some(attr1) => match NotApplicable::spec_decode(s[3]) {
                    None => Err(Error::InvalidAttribute(3, s[3])),
                    Some(attr2) => match NotApplicable::spec_decode(s[4]) {
                        None => Err(Error::InvalidAttribute(4, s[4])),
                        Some(attr3) => match Form::spec_decode(s[5]) {
                            None => Err(Error::InvalidAttribute(5, s[5])),
                            Some(form) => Ok(OtherAttributes { attr1, attr2, attr3, form }),
                        },
                    },
                },
            }
        }
    }

    /// Decode attribute positions 2-5 of a full six-byte code, failing
    /// on the first invalid position.
    pub fn from_bytes(src: &[u8]) -> (r: Result<OtherAttributes, Error>)
        ensures
            r == OtherAttributes::spec_decode(src@),
    {
        if src.len() != 6 {
            return Err(Error::InvalidLength);
        }
        let attr1 = match NotApplicable::from_byte(src[2], 2) {
            Ok(a) => a,
            Err(e) => {
                return Err(e);
            },
        };
        let attr2 = match NotApplicable::from_byte(src[3], 3) {
            Ok(a) => a,
            Err(e) => {
                return Err(e);
            },
        };
        let attr3 = match NotApplicable::from_byte(src[4], 4) {
            Ok(a) => a,
            Err(e) => {
                return Err(e);
            },
        };
        let form = match Form::from_byte(src[5], 5) {
            Ok(a) => a,
            Err(e) => {
                return Err(e);
            },
        };
        Ok(OtherAttributes { attr1, attr2, attr3, form })
    }

    /// The four attribute bytes, in position order.
    pub fn to_bytes(&self) -> (r: [u8; 4])
        ensures
            r@ == self.spec_bytes(),
    {
        let r = [
            self.attr1.to_byte(),
            self.attr2.to_byte(),
            self.attr3.to_byte(),
            self.form.to_byte(),
        ];
        proof {
            assert(r@ =~= self.spec_bytes());
        }
        r
    }
}

/// Voting right (indicates the kind of voting power conferred to the shareholder).
#[derive(Clone, Copy, Debug, Eq, Hash, Ord, PartialEq, PartialOrd, Structural)]
pub enum VotingRight {
    /// `V`: Voting (each share has one vote).
    Voting,
    /// `N`: Non-voting (the shareholder has no voting right).
    NonVoting,
    /// `R`: Restricted voting (the shareholder may be entitled to less than one vote per share).
    Restricted,
    /// `E`: Enhanced voting (the shareholder is entitled to more than one vote per share).
    Enhanced,
    /// `X`: Not applicable or undefined.
    Undefined,
}

impl VotingRight {
    /// The code character assigned to this value.
    pub open spec fn spec_byte(self) -> u8 {
        match self {
            VotingRight::Voting => 'V' as u8,
            VotingRight::NonVoting => 'N' as u8,
            VotingRight::Restricted => 'R' as u8,
            VotingRight::Enhanced => 'E' as u8,
            VotingRight::Undefined => 'X' as u8,
        }
    }

    /// The member encoded by `b`, if `b` lies in this attribute's alphabet.
    pub open spec fn spec_decode(b: u8) -> Option<VotingRight> {
        if b == 'V' as u8 {
            Some(VotingRight::Voting)
        } else if b == 'N' as u8 {
            Some(VotingRight::NonVoting)
        } else if b == 'R' as u8 {
            Some(VotingRight::Restricted)
        } else if b == 'E' as u8 {
            Some(VotingRight::Enhanced)
        } else if b == 'X' as u8 {
            Some(VotingRight::Undefined)
        } else {
            None
        }
    }

    /// Decode the attribute byte found at position `pos` of a code.
    pub fn from_byte(b: u8, pos: usize) -> (r: Result<VotingRight, Error>)
        ensures
            match VotingRight::spec_decode(b) {
                Some(a) => r == Ok::<VotingRight, Error>(a),
                None => r == Err::<VotingRight, Error>(Error::InvalidAttribute(pos, b)),
            },
    {
        if b == 'V' as u8 {
            Ok(VotingRight::Voting)
        } else if b == 'N' as u8 {
            Ok(VotingRight::NonVoting)
        } else if b == 'R' as u8 {
            Ok(VotingRight::Restricted)
        } else if b == 'E' as u8 {
            Ok(VotingRight::Enhanced)
        } else if b == 'X' as u8 {
            Ok(VotingRight::Undefined)
        } else {
            Err(Error::InvalidAttribute(pos, b))
        }
    }

    /// The byte this value encodes to; the inverse of decoding.
    pub fn to_byte(&self) -> (r: u8)
        ensures
            r == self.spec_byte(),
    {
        match self {
            VotingRight::Voting => 'V' as u8,
            VotingRight::NonVoting => 'N' as u8,
            VotingRight::Restricted => 'R' as u8,
            VotingRight::Enhanced => 'E' as u8,
            VotingRight::Undefined => 'X' as u8,
        }
    }

    /// Check if this value is [`VotingRight::Voting`].
    pub fn is_voting(&self) -> (r: bool)
        ensures
            r == (self is Voting),
    {
        matches!(self, VotingRight::Voting)
    }

    /// Check if this value is [`VotingRight::NonVoting`].
    pub fn is_non_voting(&self) -> (r: bool)
        ensures
            r == (self is NonVoting),
    {
        matches!(self, VotingRight::NonVoting)
    }

    /// Check if this value is [`VotingRight::Restricted`].
    pub fn is_restricted(&self) -> (r: bool)
        ensures
            r == (self is Restricted),
    {
        matches!(self, VotingRight::Restricted)
    }

    /// Check if this value is [`VotingRight::Enhanced`].
    pub fn is_enhanced(&self) -> (r: bool)
        ensures
            r == (self is Enhanced),
    {
        matches!(self, VotingRight::Enhanced)
    }

    /// Check if this value is [`VotingRight::Undefined`].
    pub fn is_undefined(&self) -> (r: bool)
        ensures
            r == (self is Undefined),
    {
        matches!(self, VotingRight::Undefined)
    }
}

/// Ownership/transfer/sales restrictions.
#[derive(Clone, Copy, Debug, Eq, Hash, Ord, PartialEq, PartialOrd, Structural)]
pub enum Ownership {
    /// `T`: There are restrictions on ownership.
    Restrictions,
    /// `U`: Free (unrestricted).
    Free,
    /// `X`: Not applicable or undefined.
    Undefined,
}

impl Ownership {
    /// The code character assigned to this value.
    pub open spec fn spec_byte(self) -> u8 {
        match self {
            Ownership::Restrictions => 'T' as u8,
            Ownership::Free => 'U' as u8,
            Ownership::Undefined => 'X' as u8,
        }
    }

    /// The member encoded by `b`, if `b` lies in this attribute's alphabet.
    pub open spec fn spec_decode(b: u8) -> Option<Ownership> {
        if b == 'T' as u8 {
            Some(Ownership::Restrictions)
        } else if b == 'U' as u8 {
            Some(Ownership::Free)
        } else if b == 'X' as u8 {
            Some(Ownership::Undefined)
        } else {
            None
        }
    }

    /// Decode the attribute byte found at position `pos` of a code.
    pub fn from_byte(b: u8, pos: usize) -> (r: Result<Ownership, Error>)
        ensures
            match Ownership::spec_decode(b) {
                Some(a) => r == Ok::<Ownership, Error>(a),
                None => r == Err::<Ownership, Error>(Error::InvalidAttribute(pos, b)),
            },
    {
        if b == 'T' as u8 {
            Ok(Ownership::Restrictions)
        } else if b == 'U' as u8 {
            Ok(Ownership::Free)
        } else if b == 'X' as u8 {
            Ok(Ownership::Undefined)
        } else {
            Err(Error::InvalidAttribute(pos, b))
        }
    }

    /// The byte this value encodes to; the inverse of decoding.
    pub fn to_byte(&self) -> (r: u8)
        ensures
            r == self.spec_byte(),
    {
        match self {
            Ownership::Restrictions => 'T' as u8,
            Ownership::Free => 'U' as u8,
            Ownership::Undefined => 'X' as u8,
        }
    }

    /// Check if this value is [`Ownership::Restrictions`].
    pub fn is_restrictions(&self) -> (r: bool)
        ensures
            r == (self is Restrictions),
    {
        matches!(self, Ownership::Restrictions)
    }

    /// Check if this value is [`Ownership::Free`].
    pub fn is_free(&self) -> (r: bool)
        ensures
            r == (self is Free),
    {
        matches!(self, Ownership::Free)
    }

    /// Check if this value is [`Ownership::Undefined`].
    pub fn is_undefined(&self) -> (r: bool)
        ensures
            r == (self is Undefined),
    {
        matches!(self, Ownership::Undefined)
    }
}

/// The payment status.
#[derive(Clone, Copy, Debug, Eq, Hash, Ord, PartialEq, PartialOrd, Structural)]
pub enum PaymentStatus {
    /// `F`: Fully paid.
    Fully,
    /// `O`: Nil paid.
    Nil,
    /// `P`: Partially paid.
    Partial,
    /// `X`: Not applicable or undefined.
    Undefined,
}

impl PaymentStatus {
    /// The code character assigned to this value.
    pub open spec fn spec_byte(self) -> u8 {
        match self {
            PaymentStatus::Fully => 'F' as u8,
            PaymentStatus::Nil => 'O' as u8,
            PaymentStatus::Partial => 'P' as u8,
            PaymentStatus::Undefined => 'X' as u8,
        }
    }

    /// The member encoded by `b`, if `b` lies in this attribute's alphabet.
    pub open spec fn spec_decode(b: u8) -> Option<PaymentStatus> {
        if b == 'F' as u8 {
            Some(PaymentStatus::Fully)
        } else if b == 'O' as u8 {
            Some(PaymentStatus::Nil)
        } else if b == 'P' as u8 {
            Some(PaymentStatus::Partial)
        } else if b == 'X' as u8 {
            Some(PaymentStatus::Undefined)
        } else {
            None
        }
    }

    /// Decode the attribute byte found at position `pos` of a code.
    pub fn from_byte(b: u8, pos: usize) -> (r: Result<PaymentStatus, Error>)
        ensures
            match PaymentStatus::spec_decode(b) {
                Some(a) => r == Ok::<PaymentStatus, Error>(a),
                None => r == Err::<PaymentStatus, Error>(Error::InvalidAttribute(pos, b)),
            },
    {
        if b == 'F' as u8 {
            Ok(PaymentStatus::Fully)
        } else if b == 'O' as u8 {
            Ok(PaymentStatus::Nil)
        } else if b == 'P' as u8 {
            Ok(PaymentStatus::Partial)
        } else if b == 'X' as u8 {
            Ok(PaymentStatus::Undefined)
        } else {
            Err(Error::InvalidAttribute(pos, b))
        }
    }

    /// The byte this value encodes to; the inverse of decoding.
    pub fn to_byte(&self) -> (r: u8)
        ensures
            r == self.spec_byte(),
    {
        match self {
            PaymentStatus::Fully => 'F' as u8,
            PaymentStatus::Nil => 'O' as u8,
            PaymentStatus::Partial => 'P' as u8,
            PaymentStatus::Undefined => 'X' as u8,
        }
    }

    /// Check if this value is [`PaymentStatus::Fully`].
    pub fn is_fully(&self) -> (r: bool)
        ensures
            r == (self is Fully),
    {
        matches!(self, PaymentStatus::Fully)
    }

    /// Check if this value is [`PaymentStatus::Nil`].
    pub fn is_nil(&self) -> (r: bool)
        ensures
            r == (self is Nil),
    {
        matches!(self, PaymentStatus::Nil)
    }

    /// Check if this value is [`PaymentStatus::Partial`].
    pub fn is_partial(&self) -> (r: bool)
        ensures
            r == (self is Partial),
    {
        matches!(self, PaymentStatus::Partial)
    }

    /// Check if this value is [`PaymentStatus::Undefined`].
    pub fn is_undefined(&self) -> (r: bool)
        ensures
            r == (self is Undefined),
    {
        matches!(self, PaymentStatus::Undefined)
    }
}

/// Redemption (indicates the retirement provisions made for the shares).
#[derive(Clone, Copy, Debug, Eq, Hash, Ord, PartialEq, PartialOrd, Structural)]
pub enum Redemption {
    /// `R`: Redeemable.
    Redeemable,
    /// `E`: Extendible.
    Extendible,
    /// `T`: Redeemable/extendible.
    RedeemableExtendible,
    /// `G`: Exchangeable.
    Exchangeable,
    /// `A`: Redeemable/exchangeable/extendible.
    RedeemableExchangeableExtendible,
    /// `C`: Redeemable/exchangeable.
    RedeemableExchangeable,
    /// `N`: Perpetual (the share has no fixed maturity date).
    Perpetual,
    /// `X`: Not applicable or undefined.
    Undefined,
}

impl Redemption {
    /// The code character assigned to this value.
    pub open spec fn spec_byte(self) -> u8 {
        match self {
            Redemption::Redeemable => 'R' as u8,
            Redemption::Extendible => 'E' as u8,
            Redemption::RedeemableExtendible => 'T' as u8,
            Redemption::Exchangeable => 'G' as u8,
            Redemption::RedeemableExchangeableExtendible => 'A' as u8,
            Redemption::RedeemableExchangeable => 'C' as u8,
            Redemption::Perpetual => 'N' as u8,
            Redemption::Undefined => 'X' as u8,
        }
    }

    /// The member encoded by `b`, if `b` lies in this attribute's alphabet.
    pub open spec fn spec_decode(b: u8) -> Option<Redemption> {
        if b == 'R' as u8 {
            Some(Redemption::Redeemable)
        } else if b == 'E' as u8 {
            Some(Redemption::Extendible)
        } else if b == 'T' as u8 {
            Some(Redemption::RedeemableExtendible)
        } else if b == 'G' as u8 {
            Some(Redemption::Exchangeable)
        } else if b == 'A' as u8 {
            Some(Redemption::RedeemableExchangeableExtendible)
        } else if b == 'C' as u8 {
            Some(Redemption::RedeemableExchangeable)
        } else if b == 'N' as u8 {
            Some(Redemption::Perpetual)
        } else if b == 'X' as u8 {
            Some(Redemption::Undefined)
        } else {
            None
        }
    }

    /// Decode the attribute byte found at position `pos` of a code.
    pub fn from_byte(b: u8, pos: usize) -> (r: Result<Redemption, Error>)
        ensures
            match Redemption::spec_decode(b) {
                Some(a) => r == Ok::<Redemption, Error>(a),
                None => r == Err::<Redemption, Error>(Error::InvalidAttribute(pos, b)),
            },
    {
        if b == 'R' as u8 {
            Ok(Redemption::Redeemable)
        } else if b == 'E' as u8 {
            Ok(Redemption::Extendible)
        } else if b == 'T' as u8 {
            Ok(Redemption::RedeemableExtendible)
        } else if b == 'G' as u8 {
            Ok(Redemption::Exchangeable)
        } else if b == 'A' as u8 {
            Ok(Redemption::RedeemableExchangeableExtendible)
        } else if b == 'C' as u8 {
            Ok(Redemption::RedeemableExchangeable)
        } else if b == 'N' as u8 {
            Ok(Redemption::Perpetual)
        } else if b == 'X' as u8 {
            Ok(Redemption::Undefined)
        } else {
            Err(Error::InvalidAttribute(pos, b))
        }
    }

    /// The byte this value encodes to; the inverse of decoding.
    pub fn to_byte(&self) -> (r: u8)
        ensures
            r == self.spec_byte(),
    {
        match self {
            Redemption::Redeemable => 'R' as u8,
            Redemption::Extendible => 'E' as u8,
            Redemption::RedeemableExtendible => 'T' as u8,
            Redemption::Exchangeable => 'G' as u8,
            Redemption::RedeemableExchangeableExtendible => 'A' as u8,
            Redemption::RedeemableExchangeable => 'C' as u8,
            Redemption::Perpetual => 'N' as u8,
            Redemption::Undefined => 'X' as u8,
        }
    }

    /// Check if this value is [`Redemption::Redeemable`].
    pub fn is_redeemable(&self) -> (r: bool)
        ensures
            r == (self is Redeemable),
    {
        matches!(self, Redemption::Redeemable)
    }

    /// Check if this value is [`Redemption::Extendible`].
    pub fn is_extendible(&self) -> (r: bool)
        ensures
            r == (self is Extendible),
    {
        matches!(self, Redemption::Extendible)
    }

    /// Check if this value is [`Redemption::RedeemableExtendible`].
    pub fn is_redeemable_extendible(&self) -> (r: bool)
        ensures
            r == (self is RedeemableExtendible),
    {
        matches!(self, Redemption::RedeemableExtendible)
    }

    /// Check if this value is [`Redemption::Exchangeable`].
    pub fn is_exchangeable(&self) -> (r: bool)
        ensures
            r == (self is Exchangeable),
    {
        matches!(self, Redemption::Exchangeable)
    }

    /// Check if this value is [`Redemption::RedeemableExchangeableExtendible`].
    pub fn is_redeemable_exchangeable_extendible(&self) -> (r: bool)
        ensures
            r == (self is RedeemableExchangeableExtendible),
    {
        matches!(self, Redemption::RedeemableExchangeableExtendible)
    }

    /// Check if this value is [`Redemption::RedeemableExchangeable`].
    pub fn is_redeemable_exchangeable(&self) -> (r: bool)
        ensures
            r == (self is RedeemableExchangeable),
    {
        matches!(self, Redemption::RedeemableExchangeable)
    }

    /// Check if this value is [`Redemption::Perpetual`].
    pub fn is_perpetual(&self) -> (r: bool)
        ensures
            r == (self is Perpetual),
    {
        matches!(self, Redemption::Perpetual)
    }

    /// Check if this value is [`Redemption::Undefined`].
    pub fn is_undefined(&self) -> (r: bool)
        ensures
            r == (self is Undefined),
    {
        matches!(self, Redemption::Undefined)
    }
}

/// Income (indicates the kind of dividend income the shareholders are entitled to).
#[derive(Clone, Copy, Debug, Eq, Hash, Ord, PartialEq, PartialOrd, Structural)]
pub enum Income {
    /// `F`: Fixed rate income.
    FixedRate,
    /// `C`: Cumulative, fixed rate income.
    CumulativeFixedRate,
    /// `P`: Participating income.
    Participating,
    /// `Q`: Cumulative, participating income.
    CumulativeParticipating,
    /// `A`: Adjustable/variable rate income.
    AdjustableRate,
    /// `N`: Normal rate income.
    NormalRate,
    /// `U`: Auction rate income.
    AuctionRate,
    /// `D`: Dividends.
    Dividends,
    /// `X`: Not applicable or undefined.
    Undefined,
}

impl Income {
    /// The code character assigned to this value.
    pub open spec fn spec_byte(self) -> u8 {
        match self {
            Income::FixedRate => 'F' as u8,
            Income::CumulativeFixedRate => 'C' as u8,
            Income::Participating => 'P' as u8,
            Income::CumulativeParticipating => 'Q' as u8,
            Income::AdjustableRate => 'A' as u8,
            Income::NormalRate => 'N' as u8,
            Income::AuctionRate => 'U' as u8,
            Income::Dividends => 'D' as u8,
            Income::Undefined => 'X' as u8,
        }
    }

    /// The member encoded by `b`, if `b` lies in this attribute's alphabet.
    pub open spec fn spec_decode(b: u8) -> Option<Income> {
        if b == 'F' as u8 {
            Some(Income::FixedRate)
        } else if b == 'C' as u8 {
            Some(Income::CumulativeFixedRate)
        } else if b == 'P' as u8 {
            Some(Income::Participating)
        } else if b == 'Q' as u8 {
            Some(Income::CumulativeParticipating)
        } else if b == 'A' as u8 {
            Some(Income::AdjustableRate)
        } else if b == 'N' as u8 {
            Some(Income::NormalRate)
        } else if b == 'U' as u8 {
            Some(Income::AuctionRate)
        } else if b == 'D' as u8 {
            Some(Income::Dividends)
        } else if b == 'X' as u8 {
            Some(Income::Undefined)
        } else {
            None
        }
    }

    /// Decode the attribute byte found at position `pos` of a code.
    pub fn from_byte(b: u8, pos: usize) -> (r: Result<Income, Error>)
        ensures
            match Income::spec_decode(b) {
                Some(a) => r == Ok::<Income, Error>(a),
                None => r == Err::<Income, Error>(Error::InvalidAttribute(pos, b)),
            },
    {
        if b == 'F' as u8 {
            Ok(Income::FixedRate)
        } else if b == 'C' as u8 {
            Ok(Income::CumulativeFixedRate)
        } else if b == 'P' as u8 {
            Ok(Income::Participating)
        } else if b == 'Q' as u8 {
            Ok(Income::CumulativeParticipating)
        } else if b == 'A' as u8 {
            Ok(Income::AdjustableRate)
        } else if b == 'N' as u8 {
            Ok(Income::NormalRate)
        } else if b == 'U' as u8 {
            Ok(Income::AuctionRate)
        } else if b == 'D' as u8 {
            Ok(Income::Dividends)
        } else if b == 'X' as u8 {
            Ok(Income::Undefined)
        } else {
            Err(Error::InvalidAttribute(pos, b))
        }
    }

    /// The byte this value encodes to; the inverse of decoding.
    pub fn to_byte(&self) -> (r: u8)
        ensures
            r == self.spec_byte(),
    {
        match self {
            Income::FixedRate => 'F' as u8,
            Income::CumulativeFixedRate => 'C' as u8,
            Income::Participating => 'P' as u8,
            Income::CumulativeParticipating => 'Q' as u8,
            Income::AdjustableRate => 'A' as u8,
            Income::NormalRate => 'N' as u8,
            Income::AuctionRate => 'U' as u8,
            Income::Dividends => 'D' as u8,
            Income::Undefined => 'X' as u8,
        }
    }

    /// Check if this value is [`Income::FixedRate`].
    pub fn is_fixed_rate(&self) -> (r: bool)
        ensures
            r == (self is FixedRate),
    {
        matches!(self, Income::FixedRate)
    }

    /// Check if this value is [`Income::CumulativeFixedRate`].
    pub fn is_cumulative_fixed_rate(&self) -> (r: bool)
        ensures
            r == (self is CumulativeFixedRate),
    {
        matches!(self, Income::CumulativeFixedRate)
    }

    /// Check if this value is [`Income::Participating`].
    pub fn is_participating(&self) -> (r: bool)
        ensures
            r == (self is Participating),
    {
        matches!(self, Income::Participating)
    }

    /// Check if this value is [`Income::CumulativeParticipating`].
    pub fn is_cumulative_participating(&self) -> (r: bool)
        ensures
            r == (self is CumulativeParticipating),
    {
        matches!(self, Income::CumulativeParticipating)
    }

    /// Check if this value is [`Income::AdjustableRate`].
    pub fn is_adjustable_rate(&self) -> (r: bool)
        ensures
            r == (self is AdjustableRate),
    {
        matches!(self, Income::AdjustableRate)
    }

    /// Check if this value is [`Income::NormalRate`].
    pub fn is_normal_rate(&self) -> (r: bool)
        ensures
            r == (self is NormalRate),
    {
        matches!(self, Income::NormalRate)
    }

    /// Check if this value is [`Income::AuctionRate`].
    pub fn is_auction_rate(&self) -> (r: bool)
        ensures
            r == (self is AuctionRate),
    {
        matches!(self, Income::AuctionRate)
    }

    /// Check if this value is [`Income::Dividends`].
    pub fn is_dividends(&self) -> (r: bool)
        ensures
            r == (self is Dividends),
    {
        matches!(self, Income::Dividends)
    }

    /// Check if this value is [`Income::Undefined`].
    pub fn is_undefined(&self) -> (r: bool)
        ensures
            r == (self is Undefined),
    {
        matches!(self, Income::Undefined)
    }
}

/// Instrument dependency (represents the ownership of the underlying instrument).
#[derive(Clone, Copy, Debug, Eq, Hash, Ord, PartialEq, PartialOrd, Structural)]
pub enum Dependency {
    /// `S`: Common/ordinary shares.
    Common,
    /// `P`: Preferred/preference shares.
    PreferredPreference,
    /// `C`: Common/ordinary convertible shares.
    CommonConvertible,
    /// `F`: Preferred/preference convertible shares.
    PreferredPreferenceConvertible,
    /// `L`: Limited partnership units.
    LlpUnit,
    /// `M`: Other (miscellaneous).
    Other,
    /// `X`: Not applicable or undefined.
    Undefined,
}

impl Dependency {
    /// The code character assigned to this value.
    pub open spec fn spec_byte(self) -> u8 {
        match self {
            Dependency::Common => 'S' as u8,
            Dependency::PreferredPreference => 'P' as u8,
            Dependency::CommonConvertible => 'C' as u8,
            Dependency::PreferredPreferenceConvertible => 'F' as u8,
            Dependency::LlpUnit => 'L' as u8,
            Dependency::Other => 'M' as u8,
            Dependency::Undefined => 'X' as u8,
        }
    }

    /// The member encoded by `b`, if `b` lies in this attribute's alphabet.
    pub open spec fn spec_decode(b: u8) -> Option<Dependency> {
        if b == 'S' as u8 {
            Some(Dependency::Common)
        } else if b == 'P' as u8 {
            Some(Dependency::PreferredPreference)
        } else if b == 'C' as u8 {
            Some(Dependency::CommonConvertible)
        } else if b == 'F' as u8 {
            Some(Dependency::PreferredPreferenceConvertible)
        } else if b == 'L' as u8 {
            Some(Dependency::LlpUnit)
        } else if b == 'M' as u8 {
            Some(Dependency::Other)
        } else if b == 'X' as u8 {
            Some(Dependency::Undefined)
        } else {
            None
        }
    }

    /// Decode the attribute byte found at position `pos` of a code.
    pub fn from_byte(b: u8, pos: usize) -> (r: Result<Dependency, Error>)
        ensures
            match Dependency::spec_decode(b) {
                Some(a) => r == Ok::<Dependency, Error>(a),
                None => r == Err::<Dependency, Error>(Error::InvalidAttribute(pos, b)),
            },
    {
        if b == 'S' as u8 {
            Ok(Dependency::Common)
        } else if b == 'P' as u8 {
            Ok(Dependency::PreferredPreference)
        } else if b == 'C' as u8 {
            Ok(Dependency::CommonConvertible)
        } else if b == 'F' as u8 {
            Ok(Dependency::PreferredPreferenceConvertible)
        } else if b == 'L' as u8 {
            Ok(Dependency::LlpUnit)
        } else if b == 'M' as u8 {
            Ok(Dependency::Other)
        } else if b == 'X' as u8 {
            Ok(Dependency::Undefined)
        } else {
            Err(Error::InvalidAttribute(pos, b))
        }
    }

    /// The byte this value encodes to; the inverse of decoding.
    pub fn to_byte(&self) -> (r: u8)
        ensures
            r == self.spec_byte(),
    {
        match self {
            Dependency::Common => 'S' as u8,
            Dependency::PreferredPreference => 'P' as u8,
            Dependency::CommonConvertible => 'C' as u8,
            Dependency::PreferredPreferenceConvertible => 'F' as u8,
            Dependency::LlpUnit => 'L' as u8,
            Dependency::Other => 'M' as u8,
            Dependency::Undefined => 'X' as u8,
        }
    }

    /// Check if this value is [`Dependency::Common`].
    pub fn is_common(&self) -> (r: bool)
        ensures
            r == (self is Common),
    {
        matches!(self, Dependency::Common)
    }

    /// Check if this value is [`Dependency::PreferredPreference`].
    pub fn is_preferred_preference(&self) -> (r: bool)
        ensures
            r == (self is PreferredPreference),
    {
        matches!(self, Dependency::PreferredPreference)
    }

    /// Check if this value is [`Dependency::CommonConvertible`].
    pub fn is_common_convertible(&self) -> (r: bool)
        ensures
            r == (self is CommonConvertible),
    {
        matches!(self, Dependency::CommonConvertible)
    }

    /// Check if this value is [`Dependency::PreferredPreferenceConvertible`].
    pub fn is_preferred_preference_convertible(&self) -> (r: bool)
        ensures
            r == (self is PreferredPreferenceConvertible),
    {
        matches!(self, Dependency::PreferredPreferenceConvertible)
    }

    /// Check if this value is [`Dependency::LlpUnit`].
    pub fn is_llp_unit(&self) -> (r: bool)
        ensures
            r == (self is LlpUnit),
    {
        matches!(self, Dependency::LlpUnit)
    }

    /// Check if this value is [`Dependency::Other`].
    pub fn is_other(&self) -> (r: bool)
        ensures
            r == (self is Other),
    {
        matches!(self, Dependency::Other)
    }

    /// Check if this value is [`Dependency::Undefined`].
    pub fn is_undefined(&self) -> (r: bool)
        ensures
            r == (self is Undefined),
    {
        matches!(self, Dependency::Undefined)
    }
}

/// Redemption/conversion of the underlying assets.
#[derive(Clone, Copy, Debug, Eq, Hash, Ord, PartialEq, PartialOrd, Structural)]
pub enum RedemptionConversion {
    /// `R`: Redeemable.
    Redeemable,
    /// `N`: Perpetual.
    Perpetual,
    /// `B`: Convertible.
    Convertible,
    /// `D`: Convertible/redeemable.
    ConvertibleRedeemable,
    /// `X`: Not applicable or undefined.
    Undefined,
}

impl RedemptionConversion {
    /// The code character assigned to this value.
    pub open spec fn spec_byte(self) -> u8 {
        match self {
            RedemptionConversion::Redeemable => 'R' as u8,
            RedemptionConversion::Perpetual => 'N' as u8,
            RedemptionConversion::Convertible => 'B' as u8,
            RedemptionConversion::ConvertibleRedeemable => 'D' as u8,
            RedemptionConversion::Undefined => 'X' as u8,
        }
    }

    /// The member encoded by `b`, if `b` lies in this attribute's alphabet.
    pub open spec fn spec_decode(b: u8) -> Option<RedemptionConversion> {
        if b == 'R' as u8 {
            Some(RedemptionConversion::Redeemable)
        } else if b == 'N' as u8 {
            Some(RedemptionConversion::Perpetual)
        } else if b == 'B' as u8 {
            Some(RedemptionConversion::Convertible)
        } else if b == 'D' as u8 {
            Some(RedemptionConversion::ConvertibleRedeemable)
        } else if b == 'X' as u8 {
            Some(RedemptionConversion::Undefined)
        } else {
            None
        }
    }

    /// Decode the attribute byte found at position `pos` of a code.
    pub fn from_byte(b: u8, pos: usize) -> (r: Result<RedemptionConversion, Error>)
        ensures
            match RedemptionConversion::spec_decode(b) {
                Some(a) => r == Ok::<RedemptionConversion, Error>(a),
                None => r == Err::<RedemptionConversion, Error>(Error::InvalidAttribute(pos, b)),
            },
    {
        if b == 'R' as u8 {
            Ok(RedemptionConversion::Redeemable)
        } else if b == 'N' as u8 {
            Ok(RedemptionConversion::Perpetual)
        } else if b == 'B' as u8 {
            Ok(RedemptionConversion::Convertible)
        } else if b == 'D' as u8 {
            Ok(RedemptionConversion::ConvertibleRedeemable)
        } else if b == 'X' as u8 {
            Ok(RedemptionConversion::Undefined)
        } else {
            Err(Error::InvalidAttribute(pos, b))
        }
    }

    /// The byte this value encodes to; the inverse of decoding.
    pub fn to_byte(&self) -> (r: u8)
        ensures
            r == self.spec_byte(),
    {
        match self {
            RedemptionConversion::Redeemable => 'R' as u8,
            RedemptionConversion::Perpetual => 'N' as u8,
            RedemptionConversion::Convertible => 'B' as u8,
            RedemptionConversion::ConvertibleRedeemable => 'D' as u8,
            RedemptionConversion::Undefined => 'X' as u8,
        }
    }

    /// Check if this value is [`RedemptionConversion::Redeemable`].
    pub fn is_redeemable(&self) -> (r: bool)
        ensures
            r == (self is Redeemable),
    {
        matches!(self, RedemptionConversion::Redeemable)
    }

    /// Check if this value is [`RedemptionConversion::Perpetual`].
    pub fn is_perpetual(&self) -> (r: bool)
        ensures
            r == (self is Perpetual),
    {
        matches!(self, RedemptionConversion::Perpetual)
    }

    /// Check if this value is [`RedemptionConversion::Convertible`].
    pub fn is_convertible(&self) -> (r: bool)
        ensures
            r == (self is Convertible),
    {
        matches!(self, RedemptionConversion::Convertible)
    }

    /// Check if this value is [`RedemptionConversion::ConvertibleRedeemable`].
    pub fn is_convertible_redeemable(&self) -> (r: bool)
        ensures
            r == (self is ConvertibleRedeemable),
    {
        matches!(self, RedemptionConversion::ConvertibleRedeemable)
    }

    /// Check if this value is [`RedemptionConversion::Undefined`].
    pub fn is_undefined(&self) -> (r: bool)
        ensures
            r == (self is Undefined),
    {
        matches!(self, RedemptionConversion::Undefined)
    }
}

/// The structured instrument type.
#[derive(Clone, Copy, Debug, Eq, Hash, Ord, PartialEq, PartialOrd, Structural)]
pub enum Kind {
    /// `A`: Tracker certificate.
    Tracker,
    /// `B`: Outperformance certificate.
    Outperforming,
    /// `C`: Bonus certificate.
    Bonus,
    /// `D`: Outperformance bonus certificate.
    OutperformanceBonus,
    /// `E`: Twin-win certificate.
    TwinWin,
    /// `M`: Other (miscellaneous).
    Other,
    /// `X`: Not applicable or undefined.
    Undefined,
}

impl Kind {
    /// The code character assigned to this value.
    pub open spec fn spec_byte(self) -> u8 {
        match self {
            Kind::Tracker => 'A' as u8,
            Kind::Outperforming => 'B' as u8,
            Kind::Bonus => 'C' as u8,
            Kind::OutperformanceBonus => 'D' as u8,
            Kind::TwinWin => 'E' as u8,
            Kind::Other => 'M' as u8,
            Kind::Undefined => 'X' as u8,
        }
    }

    /// The member encoded by `b`, if `b` lies in this attribute's alphabet.
    pub open spec fn spec_decode(b: u8) -> Option<Kind> {
        if b == 'A' as u8 {
            Some(Kind::Tracker)
        } else if b == 'B' as u8 {
            Some(Kind::Outperforming)
        } else if b == 'C' as u8 {
            Some(Kind::Bonus)
        } else if b == 'D' as u8 {
            Some(Kind::OutperformanceBonus)
        } else if b == 'E' as u8 {
            Some(Kind::TwinWin)
        } else if b == 'M' as u8 {
            Some(Kind::Other)
        } else if b == 'X' as u8 {
            Some(Kind::Undefined)
        } else {
            None
        }
    }

    /// Decode the attribute byte found at position `pos` of a code.
    pub fn from_byte(b: u8, pos: usize) -> (r: Result<Kind, Error>)
        ensures
            match Kind::spec_decode(b) {
                Some(a) => r == Ok::<Kind, Error>(a),
                None => r == Err::<Kind, Error>(Error::InvalidAttribute(pos, b)),
            },
    {
        if b == 'A' as u8 {
            Ok(Kind::Tracker)
        } else if b == 'B' as u8 {
            Ok(Kind::Outperforming)
        } else if b == 'C' as u8 {
            Ok(Kind::Bonus)
        } else if b == 'D' as u8 {
            Ok(Kind::OutperformanceBonus)
        } else if b == 'E' as u8 {
            Ok(Kind::TwinWin)
        } else if b == 'M' as u8 {
            Ok(Kind::Other)
        } else if b == 'X' as u8 {
            Ok(Kind::Undefined)
        } else {
            Err(Error::InvalidAttribute(pos, b))
        }
    }

    /// The byte this value encodes to; the inverse of decoding.
    pub fn to_byte(&self) -> (r: u8)
        ensures
            r == self.spec_byte(),
    {
        match self {
            Kind::Tracker => 'A' as u8,
            Kind::Outperforming => 'B' as u8,
            Kind::Bonus => 'C' as u8,
            Kind::OutperformanceBonus => 'D' as u8,
            Kind::TwinWin => 'E' as u8,
            Kind::Other => 'M' as u8,
            Kind::Undefined => 'X' as u8,
        }
    }

    /// Check if this value is [`Kind::Tracker`].
    pub fn is_tracker(&self) -> (r: bool)
        ensures
            r == (self is Tracker),
    {
        matches!(self, Kind::Tracker)
    }

    /// Check if this value is [`Kind::Outperforming`].
    pub fn is_outperforming(&self) -> (r: bool)
        ensures
            r == (self is Outperforming),
    {
        matches!(self, Kind::Outperforming)
    }

    /// Check if this value is [`Kind::Bonus`].
    pub fn is_bonus(&self) -> (r: bool)
        ensures
            r == (self is Bonus),
    {
        matches!(self, Kind::Bonus)
    }

    /// Check if this value is [`Kind::OutperformanceBonus`].
    pub fn is_outperformance_bonus(&self) -> (r: bool)
        ensures
            r == (self is OutperformanceBonus),
    {
        matches!(self, Kind::OutperformanceBonus)
    }

    /// Check if this value is [`Kind::TwinWin`].
    pub fn is_twin_win(&self) -> (r: bool)
        ensures
            r == (self is TwinWin),
    {
        matches!(self, Kind::TwinWin)
    }

    /// Check if this value is [`Kind::Other`].
    pub fn is_other(&self) -> (r: bool)
        ensures
            r == (self is Other),
    {
        matches!(self, Kind::Other)
    }

    /// Check if this value is [`Kind::Undefined`].
    pub fn is_undefined(&self) -> (r: bool)
        ensures
            r == (self is Undefined),
    {
        matches!(self, Kind::Undefined)
    }
}

/// Distribution (indicates the cash distribution provided by the structured instrument).
#[derive(Clone, Copy, Debug, Eq, Hash, Ord, PartialEq, PartialOrd, Structural)]
pub enum Distribution {
    /// `D`: Dividend payments.
    Dividend,
    /// `Y`: No payments.
    NoPayments,
    /// `M`: Others (miscellaneous).
    Other,
    /// `X`: Not applicable or undefined.
    Undefined,
}

impl Distribution {
    /// The code character assigned to this value.
    pub open spec fn spec_byte(self) -> u8 {
        match self {
            Distribution::Dividend => 'D' as u8,
            Distribution::NoPayments => 'Y' as u8,
            Distribution::Other => 'M' as u8,
            Distribution::Undefined => 'X' as u8,
        }
    }

    /// The member encoded by `b`, if `b` lies in this attribute's alphabet.
    pub open spec fn spec_decode(b: u8) -> Option<Distribution> {
        if b == 'D' as u8 {
            Some(Distribution::Dividend)
        } else if b == 'Y' as u8 {
            Some(Distribution::NoPayments)
        } else if b == 'M' as u8 {
            Some(Distribution::Other)
        } else if b == 'X' as u8 {
            Some(Distribution::Undefined)
        } else {
            None
        }
    }

    /// Decode the attribute byte found at position `pos` of a code.
    pub fn from_byte(b: u8, pos: usize) -> (r: Result<Distribution, Error>)
        ensures
            match Distribution::spec_decode(b) {
                Some(a) => r == Ok::<Distribution, Error>(a),
                None => r == Err::<Distribution, Error>(Error::InvalidAttribute(pos, b)),
            },
    {
        if b == 'D' as u8 {
            Ok(Distribution::Dividend)
        } else if b == 'Y' as u8 {
            Ok(Distribution::NoPayments)
        } else if b == 'M' as u8 {
            Ok(Distribution::Other)
        } else if b == 'X' as u8 {
            Ok(Distribution::Undefined)
        } else {
            Err(Error::InvalidAttribute(pos, b))
        }
    }

    /// The byte this value encodes to; the inverse of decoding.
    pub fn to_byte(&self) -> (r: u8)
        ensures
            r == self.spec_byte(),
    {
        match self {
            Distribution::Dividend => 'D' as u8,
            Distribution::NoPayments => 'Y' as u8,
            Distribution::Other => 'M' as u8,
            Distribution::Undefined => 'X' as u8,
        }
    }

    /// Check if this value is [`Distribution::Dividend`].
    pub fn is_dividend(&self) -> (r: bool)
        ensures
            r == (self is Dividend),
    {
        matches!(self, Distribution::Dividend)
    }

    /// Check if this value is [`Distribution::NoPayments`].
    pub fn is_no_payments(&self) -> (r: bool)
        ensures
            r == (self is NoPayments),
    {
        matches!(self, Distribution::NoPayments)
    }

    /// Check if this value is [`Distribution::Other`].
    pub fn is_other(&self) -> (r: bool)
        ensures
            r == (self is Other),
    {
        matches!(self, Distribution::Other)
    }

    /// Check if this value is [`Distribution::Undefined`].
    pub fn is_undefined(&self) -> (r: bool)
        ensures
            r == (self is Undefined),
    {
        matches!(self, Distribution::Undefined)
    }
}

/// Repayment (indicates the repayment form provided by the structured instrument).
#[derive(Clone, Copy, Debug, Eq, Hash, Ord, PartialEq, PartialOrd, Structural)]
pub enum Repayment {
    /// `F`: Cash repayment.
    Cash,
    /// `V`: Physical repayment.
    Physical,
    /// `E`: Elect at settlement (determined at the time of settlement).
    Elect,
    /// `M`: Others (miscellaneous).
    Other,
    /// `X`: Not applicable or undefined.
    Undefined,
}

impl Repayment {
    /// The code character assigned to this value.
    pub open spec fn spec_byte(self) -> u8 {
        match self {
            Repayment::Cash => 'F' as u8,
            Repayment::Physical => 'V' as u8,
            Repayment::Elect => 'E' as u8,
            Repayment::Other => 'M' as u8,
            Repayment::Undefined => 'X' as u8,
        }
    }

    /// The member encoded by `b`, if `b` lies in this attribute's alphabet.
    pub open spec fn spec_decode(b: u8) -> Option<Repayment> {
        if b == 'F' as u8 {
            Some(Repayment::Cash)
        } else if b == 'V' as u8 {
            Some(Repayment::Physical)
        } else if b == 'E' as u8 {
            Some(Repayment::Elect)
        } else if b == 'M' as u8 {
            Some(Repayment::Other)
        } else if b == 'X' as u8 {
            Some(Repayment::Undefined)
        } else {
            None
        }
    }

    /// Decode the attribute byte found at position `pos` of a code.
    pub fn from_byte(b: u8, pos: usize) -> (r: Result<Repayment, Error>)
        ensures
            match Repayment::spec_decode(b) {
                Some(a) => r == Ok::<Repayment, Error>(a),
                None => r == Err::<Repayment, Error>(Error::InvalidAttribute(pos, b)),
            },
    {
        if b == 'F' as u8 {
            Ok(Repayment::Cash)
        } else if b == 'V' as u8 {
            Ok(Repayment::Physical)
        } else if b == 'E' as u8 {
            Ok(Repayment::Elect)
        } else if b == 'M' as u8 {
            Ok(Repayment::Other)
        } else if b == 'X' as u8 {
            Ok(Repayment::Undefined)
        } else {
            Err(Error::InvalidAttribute(pos, b))
        }
    }

    /// The byte this value encodes to; the inverse of decoding.
    pub fn to_byte(&self) -> (r: u8)
        ensures
            r == self.spec_byte(),
    {
        match self {
            Repayment::Cash => 'F' as u8,
            Repayment::Physical => 'V' as u8,
            Repayment::Elect => 'E' as u8,
            Repayment::Other => 'M' as u8,
            Repayment::Undefined => 'X' as u8,
        }
    }

    /// Check if this value is [`Repayment::Cash`].
    pub fn is_cash(&self) -> (r: bool)
        ensures
            r == (self is Cash),
    {
        matches!(self, Repayment::Cash)
    }

    /// Check if this value is [`Repayment::Physical`].
    pub fn is_physical(&self) -> (r: bool)
        ensures
            r == (self is Physical),
    {
        matches!(self, Repayment::Physical)
    }

    /// Check if this value is [`Repayment::Elect`].
    pub fn is_elect(&self) -> (r: bool)
        ensures
            r == (self is Elect),
    {
        matches!(self, Repayment::Elect)
    }

    /// Check if this value is [`Repayment::Other`].
    pub fn is_other(&self) -> (r: bool)
        ensures
            r == (self is Other),
    {
        matches!(self, Repayment::Other)
    }

    /// Check if this value is [`Repayment::Undefined`].
    pub fn is_undefined(&self) -> (r: bool)
        ensures
            r == (self is Undefined),
    {
        matches!(self, Repayment::Undefined)
    }
}

/// Underlying assets (indicates the type of underlying assets in which the structured instrument participates).
#[derive(Clone, Copy, Debug, Eq, Hash, Ord, PartialEq, PartialOrd, Structural)]
pub enum Underlying {
    /// `B`: Baskets.
    Baskets,
    /// `S`: Equities.
    Equities,
    /// `D`: Debt instruments.
    Debt,
    /// `G`: Derivatives.
    Derivatives,
    /// `T`: Commodities.
    Commodities,
    /// `C`: Currencies.
    Currencies,
    /// `I`: Indices.
    Indices,
    /// `N`: Interest rates.
    Rates,
    /// `M`: Others (miscellaneous).
    Other,
    /// `X`: Not applicable or undefined.
    Undefined,
}

impl Underlying {
    /// The code character assigned to this value.
    pub open spec fn spec_byte(self) -> u8 {
        match self {
            Underlying::Baskets => 'B' as u8,
            Underlying::Equities => 'S' as u8,
            Underlying::Debt => 'D' as u8,
            Underlying::Derivatives => 'G' as u8,
            Underlying::Commodities => 'T' as u8,
            Underlying::Currencies => 'C' as u8,
            Underlying::Indices => 'I' as u8,
            Underlying::Rates => 'N' as u8,
            Underlying::Other => 'M' as u8,
            Underlying::Undefined => 'X' as u8,
        }
    }

    /// The member encoded by `b`, if `b` lies in this attribute's alphabet.
    pub open spec fn spec_decode(b: u8) -> Option<Underlying> {
        if b == 'B' as u8 {
            Some(Underlying::Baskets)
        } else if b == 'S' as u8 {
            Some(Underlying::Equities)
        } else if b == 'D' as u8 {
            Some(Underlying::Debt)
        } else if b == 'G' as u8 {
            Some(Underlying::Derivatives)
        } else if b == 'T' as u8 {
            Some(Underlying::Commodities)
        } else if b == 'C' as u8 {
            Some(Underlying::Currencies)
        } else if b == 'I' as u8 {
            Some(Underlying::Indices)
        } else if b == 'N' as u8 {
            Some(Underlying::Rates)
        } else if b == 'M' as u8 {
            Some(Underlying::Other)
        } else if b == 'X' as u8 {
            Some(Underlying::Undefined)
        } else {
            None
        }
    }

    /// Decode the attribute byte found at position `pos` of a code.
    pub fn from_byte(b: u8, pos: usize) -> (r: Result<Underlying, Error>)
        ensures
            match Underlying::spec_decode(b) {
                Some(a) => r == Ok::<Underlying, Error>(a),
                None => r == Err::<Underlying, Error>(Error::InvalidAttribute(pos, b)),
            },
    {
        if b == 'B' as u8 {
            Ok(Underlying::Baskets)
        } else if b == 'S' as u8 {
            Ok(Underlying::Equities)
        } else if b == 'D' as u8 {
            Ok(Underlying::Debt)
        } else if b == 'G' as u8 {
            Ok(Underlying::Derivatives)
        } else if b == 'T' as u8 {
            Ok(Underlying::Commodities)
        } else if b == 'C' as u8 {
            Ok(Underlying::Currencies)
        } else if b == 'I' as u8 {
            Ok(Underlying::Indices)
        } else if b == 'N' as u8 {
            Ok(Underlying::Rates)
        } else if b == 'M' as u8 {
            Ok(Underlying::Other)
        } else if b == 'X' as u8 {
            Ok(Underlying::Undefined)
        } else {
            Err(Error::InvalidAttribute(pos, b))
        }
    }

    /// The byte this value encodes to; the inverse of decoding.
    pub fn to_byte(&self) -> (r: u8)
        ensures
            r == self.spec_byte(),
    {
        match self {
            Underlying::Baskets => 'B' as u8,
            Underlying::Equities => 'S' as u8,
            Underlying::Debt => 'D' as u8,
            Underlying::Derivatives => 'G' as u8,
            Underlying::Commodities => 'T' as u8,
            Underlying::Currencies => 'C' as u8,
            Underlying::Indices => 'I' as u8,
            Underlying::Rates => 'N' as u8,
            Underlying::Other => 'M' as u8,
            Underlying::Undefined => 'X' as u8,
        }
    }

    /// Check if this value is [`Underlying::Baskets`].
    pub fn is_baskets(&self) -> (r: bool)
        ensures
            r == (self is Baskets),
    {
        matches!(self, Underlying::Baskets)
    }

    /// Check if this value is [`Underlying::Equities`].
    pub fn is_equities(&self) -> (r: bool)
        ensures
            r == (self is Equities),
    {
        matches!(self, Underlying::Equities)
    }

    /// Check if this value is [`Underlying::Debt`].
    pub fn is_debt(&self) -> (r: bool)
        ensures
            r == (self is Debt),
    {
        matches!(self, Underlying::Debt)
    }

    /// Check if this value is [`Underlying::Derivatives`].
    pub fn is_derivatives(&self) -> (r: bool)
        ensures
            r == (self is Derivatives),
    {
        matches!(self, Underlying::Derivatives)
    }

    /// Check if this value is [`Underlying::Commodities`].
    pub fn is_commodities(&self) -> (r: bool)
        ensures
            r == (self is Commodities),
    {
        matches!(self, Underlying::Commodities)
    }

    /// Check if this value is [`Underlying::Currencies`].
    pub fn is_currencies(&self) -> (r: bool)
        ensures
            r == (self is Currencies),
    {
        matches!(self, Underlying::Currencies)
    }

    /// Check if this value is [`Underlying::Indices`].
    pub fn is_indices(&self) -> (r: bool)
        ensures
            r == (self is Indices),
    {
        matches!(self, Underlying::Indices)
    }

    /// Check if this value is [`Underlying::Rates`].
    pub fn is_rates(&self) -> (r: bool)
        ensures
            r == (self is Rates),
    {
        matches!(self, Underlying::Rates)
    }

    /// Check if this value is [`Underlying::Other`].
    pub fn is_other(&self) -> (r: bool)
        ensures
            r == (self is Other),
    {
        matches!(self, Underlying::Other)
    }

    /// Check if this value is [`Underlying::Undefined`].
    pub fn is_undefined(&self) -> (r: bool)
        ensures
            r == (self is Undefined),
    {
        matches!(self, Underlying::Undefined)
    }
}

/// The distribution policy of the units.
#[derive(Clone, Copy, Debug, Eq, Hash, Ord, PartialEq, PartialOrd, Structural)]
pub enum DistributionPolicy {
    /// `I`: Income funds.
    Income,
    /// `G`: Growth funds.
    Growth,
    /// `M`: Mixed funds.
    Mixed,
    /// `X`: Not applicable or undefined.
    Undefined,
}

impl DistributionPolicy {
    /// The code character assigned to this value.
    pub open spec fn spec_byte(self) -> u8 {
        match self {
            DistributionPolicy::Income => 'I' as u8,
            DistributionPolicy::Growth => 'G' as u8,
            DistributionPolicy::Mixed => 'M' as u8,
            DistributionPolicy::Undefined => 'X' as u8,
        }
    }

    /// The member encoded by `b`, if `b` lies in this attribute's alphabet.
    pub open spec fn spec_decode(b: u8) -> Option<DistributionPolicy> {
        if b == 'I' as u8 {
            Some(DistributionPolicy::Income)
        } else if b == 'G' as u8 {
            Some(DistributionPolicy::Growth)
        } else if b == 'M' as u8 {
            Some(DistributionPolicy::Mixed)
        } else if b == 'X' as u8 {
            Some(DistributionPolicy::Undefined)
        } else {
            None
        }
    }

    /// Decode the attribute byte found at position `pos` of a code.
    pub fn from_byte(b: u8, pos: usize) -> (r: Result<DistributionPolicy, Error>)
        ensures
            match DistributionPolicy::spec_decode(b) {
                Some(a) => r == Ok::<DistributionPolicy, Error>(a),
                None => r == Err::<DistributionPolicy, Error>(Error::InvalidAttribute(pos, b)),
            },
    {
        if b == 'I' as u8 {
            Ok(DistributionPolicy::Income)
        } else if b == 'G' as u8 {
            Ok(DistributionPolicy::Growth)
        } else if b == 'M' as u8 {
            Ok(DistributionPolicy::Mixed)
        } else if b == 'X' as u8 {
            Ok(DistributionPolicy::Undefined)
        } else {
            Err(Error::InvalidAttribute(pos, b))
        }
    }

    /// The byte this value encodes to; the inverse of decoding.
    pub fn to_byte(&self) -> (r: u8)
        ensures
            r == self.spec_byte(),
    {
        match self {
            DistributionPolicy::Income => 'I' as u8,
            DistributionPolicy::Growth => 'G' as u8,
            DistributionPolicy::Mixed => 'M' as u8,
            DistributionPolicy::Undefined => 'X' as u8,
        }
    }

    /// Check if this value is [`DistributionPolicy::Income`].
    pub fn is_income(&self) -> (r: bool)
        ensures
            r == (self is Income),
    {
        matches!(self, DistributionPolicy::Income)
    }

    /// Check if this value is [`DistributionPolicy::Growth`].
    pub fn is_growth(&self) -> (r: bool)
        ensures
            r == (self is Growth),
    {
        matches!(self, DistributionPolicy::Growth)
    }

    /// Check if this value is [`DistributionPolicy::Mixed`].
    pub fn is_mixed(&self) -> (r: bool)
        ensures
            r == (self is Mixed),
    {
        matches!(self, DistributionPolicy::Mixed)
    }

    /// Check if this value is [`DistributionPolicy::Undefined`].
    pub fn is_undefined(&self) -> (r: bool)
        ensures
            r == (self is Undefined),
    {
        matches!(self, DistributionPolicy::Undefined)
    }
}

/// The closed/open-end status of the units.
#[derive(Clone, Copy, Debug, Eq, Hash, Ord, PartialEq, PartialOrd, Structural)]
pub enum OpenClosed {
    /// `C`: Closed-end.
    Closed,
    /// `O`: Open-end.
    Open,
    /// `X`: Not applicable or undefined.
    Undefined,
}

impl OpenClosed {
    /// The code character assigned to this value.
    pub open spec fn spec_byte(self) -> u8 {
        match self {
            OpenClosed::Closed => 'C' as u8,
            OpenClosed::Open => 'O' as u8,
            OpenClosed::Undefined => 'X' as u8,
        }
    }

    /// The member encoded by `b`, if `b` lies in this attribute's alphabet.
    pub open spec fn spec_decode(b: u8) -> Option<OpenClosed> {
        if b == 'C' as u8 {
            Some(OpenClosed::Closed)
        } else if b == 'O' as u8 {
            Some(OpenClosed::Open)
        } else if b == 'X' as u8 {
            Some(OpenClosed::Undefined)
        } else {
            None
        }
    }

    /// Decode the attribute byte found at position `pos` of a code.
    pub fn from_byte(b: u8, pos: usize) -> (r: Result<OpenClosed, Error>)
        ensures
            match OpenClosed::spec_decode(b) {
                Some(a) => r == Ok::<OpenClosed, Error>(a),
                None => r == Err::<OpenClosed, Error>(Error::InvalidAttribute(pos, b)),
            },
    {
        if b == 'C' as u8 {
            Ok(OpenClosed::Closed)
        } else if b == 'O' as u8 {
            Ok(OpenClosed::Open)
        } else if b == 'X' as u8 {
            Ok(OpenClosed::Undefined)
        } else {
            Err(Error::InvalidAttribute(pos, b))
        }
    }

    /// The byte this value encodes to; the inverse of decoding.
    pub fn to_byte(&self) -> (r: u8)
        ensures
            r == self.spec_byte(),
    {
        match self {
            OpenClosed::Closed => 'C' as u8,
            OpenClosed::Open => 'O' as u8,
            OpenClosed::Undefined => 'X' as u8,
        }
    }

    /// Check if this value is [`OpenClosed::Closed`].
    pub fn is_closed(&self) -> (r: bool)
        ensures
            r == (self is Closed),
    {
        matches!(self, OpenClosed::Closed)
    }

    /// Check if this value is [`OpenClosed::Open`].
    pub fn is_open(&self) -> (r: bool)
        ensures
            r == (self is Open),
    {
        matches!(self, OpenClosed::Open)
    }

    /// Check if this value is [`OpenClosed::Undefined`].
    pub fn is_undefined(&self) -> (r: bool)
        ensures
            r == (self is Undefined),
    {
        matches!(self, OpenClosed::Undefined)
    }
}

/// The assets of the units.
#[derive(Clone, Copy, Debug, Eq, Hash, Ord, PartialEq, PartialOrd, Structural)]
pub enum Asset {
    /// `R`: Real estate.
    RealEstate,
    /// `S`: Securities.
    Securities,
    /// `C`: Commodities.
    Commodities,
    /// `D`: Derivatives.
    Derivatives,
    /// `X`: Not applicable or undefined.
    Undefined,
}

impl Asset {
    /// The code character assigned to this value.
    pub open spec fn spec_byte(self) -> u8 {
        match self {
            Asset::RealEstate => 'R' as u8,
            Asset::Securities => 'S' as u8,
            Asset::Commodities => 'C' as u8,
            Asset::Derivatives => 'D' as u8,
            Asset::Undefined => 'X' as u8,
        }
    }

    /// The member encoded by `b`, if `b` lies in this attribute's alphabet.
    pub open spec fn spec_decode(b: u8) -> Option<Asset> {
        if b == 'R' as u8 {
            Some(Asset::RealEstate)
        } else if b == 'S' as u8 {
            Some(Asset::Securities)
        } else if b == 'C' as u8 {
            Some(Asset::Commodities)
        } else if b == 'D' as u8 {
            Some(Asset::Derivatives)
        } else if b == 'X' as u8 {
            Some(Asset::Undefined)
        } else {
            None
        }
    }

    /// Decode the attribute byte found at position `pos` of a code.
    pub fn from_byte(b: u8, pos: usize) -> (r: Result<Asset, Error>)
        ensures
            match Asset::spec_decode(b) {
                Some(a) => r == Ok::<Asset, Error>(a),
                None => r == Err::<Asset, Error>(Error::InvalidAttribute(pos, b)),
            },
    {
        if b == 'R' as u8 {
            Ok(Asset::RealEstate)
        } else if b == 'S' as u8 {
            Ok(Asset::Securities)
        } else if b == 'C' as u8 {
            Ok(Asset::Commodities)
        } else if b == 'D' as u8 {
            Ok(Asset::Derivatives)
        } else if b == 'X' as u8 {
            Ok(Asset::Undefined)
        } else {
            Err(Error::InvalidAttribute(pos, b))
        }
    }

    /// The byte this value encodes to; the inverse of decoding.
    pub fn to_byte(&self) -> (r: u8)
        ensures
            r == self.spec_byte(),
    {
        match self {
            Asset::RealEstate => 'R' as u8,
            Asset::Securities => 'S' as u8,
            Asset::Commodities => 'C' as u8,
            Asset::Derivatives => 'D' as u8,
            Asset::Undefined => 'X' as u8,
        }
    }

    /// Check if this value is [`Asset::RealEstate`].
    pub fn is_real_estate(&self) -> (r: bool)
        ensures
            r == (self is RealEstate),
    {
        matches!(self, Asset::RealEstate)
    }

    /// Check if this value is [`Asset::Securities`].
    pub fn is_securities(&self) -> (r: bool)
        ensures
            r == (self is Securities),
    {
        matches!(self, Asset::Securities)
    }

    /// Check if this value is [`Asset::Commodities`].
    pub fn is_commodities(&self) -> (r: bool)
        ensures
            r == (self is Commodities),
    {
        matches!(self, Asset::Commodities)
    }

    /// Check if this value is [`Asset::Derivatives`].
    pub fn is_derivatives(&self) -> (r: bool)
        ensures
            r == (self is Derivatives),
    {
        matches!(self, Asset::Derivatives)
    }

    /// Check if this value is [`Asset::Undefined`].
    pub fn is_undefined(&self) -> (r: bool)
        ensures
            r == (self is Undefined),
    {
        matches!(self, Asset::Undefined)
    }
}

/// The form of the units.
#[derive(Clone, Copy, Debug, Eq, Hash, Ord, PartialEq, PartialOrd, Structural)]
pub enum UnitForm {
    /// `B`: Bearer shares.
    Bearer,
    /// `R`: Registered shares.
    Registered,
    /// `N`: Bearer/registered shares.
    BearerRegistered,
    /// `Z`: Bearer depository receipt.
    BearerReceipt,
    /// `A`: Registered depository receipt.
    RegisteredReceipt,
    /// `M`: Others (miscellaneous).
    Other,
    /// `X`: Not applicable or undefined.
    Undefined,
}

impl UnitForm {
    /// The code character assigned to this value.
    pub open spec fn spec_byte(self) -> u8 {
        match self {
            UnitForm::Bearer => 'B' as u8,
            UnitForm::Registered => 'R' as u8,
            UnitForm::BearerRegistered => 'N' as u8,
            UnitForm::BearerReceipt => 'Z' as u8,
            UnitForm::RegisteredReceipt => 'A' as u8,
            UnitForm::Other => 'M' as u8,
            UnitForm::Undefined => 'X' as u8,
        }
    }

    /// The member encoded by `b`, if `b` lies in this attribute's alphabet.
    pub open spec fn spec_decode(b: u8) -> Option<UnitForm> {
        if b == 'B' as u8 {
            Some(UnitForm::Bearer)
        } else if b == 'R' as u8 {
            Some(UnitForm::Registered)
        } else if b == 'N' as u8 {
            Some(UnitForm::BearerRegistered)
        } else if b == 'Z' as u8 {
            Some(UnitForm::BearerReceipt)
        } else if b == 'A' as u8 {
            Some(UnitForm::RegisteredReceipt)
        } else if b == 'M' as u8 {
            Some(UnitForm::Other)
        } else if b == 'X' as u8 {
            Some(UnitForm::Undefined)
        } else {
            None
        }
    }

    /// Decode the attribute byte found at position `pos` of a code.
    pub fn from_byte(b: u8, pos: usize) -> (r: Result<UnitForm, Error>)
        ensures
            match UnitForm::spec_decode(b) {
                Some(a) => r == Ok::<UnitForm, Error>(a),
                None => r == Err::<UnitForm, Error>(Error::InvalidAttribute(pos, b)),
            },
    {
        if b == 'B' as u8 {
            Ok(UnitForm::Bearer)
        } else if b == 'R' as u8 {
            Ok(UnitForm::Registered)
        } else if b == 'N' as u8 {
            Ok(UnitForm::BearerRegistered)
        } else if b == 'Z' as u8 {
            Ok(UnitForm::BearerReceipt)
        } else if b == 'A' as u8 {
            Ok(UnitForm::RegisteredReceipt)
        } else if b == 'M' as u8 {
            Ok(UnitForm::Other)
        } else if b == 'X' as u8 {
            Ok(UnitForm::Undefined)
        } else {
            Err(Error::InvalidAttribute(pos, b))
        }
    }

    /// The byte this value encodes to; the inverse of decoding.
    pub fn to_byte(&self) -> (r: u8)
        ensures
            r == self.spec_byte(),
    {
        match self {
            UnitForm::Bearer => 'B' as u8,
            UnitForm::Registered => 'R' as u8,
            UnitForm::BearerRegistered => 'N' as u8,
            UnitForm::BearerReceipt => 'Z' as u8,
            UnitForm::RegisteredReceipt => 'A' as u8,
            UnitForm::Other => 'M' as u8,
            UnitForm::Undefined => 'X' as u8,
        }
    }

    /// Check if this value is [`UnitForm::Bearer`].
    pub fn is_bearer(&self) -> (r: bool)
        ensures
            r == (self is Bearer),
    {
        matches!(self, UnitForm::Bearer)
    }

    /// Check if this value is [`UnitForm::Registered`].
    pub fn is_registered(&self) -> (r: bool)
        ensures
            r == (self is Registered),
    {
        matches!(self, UnitForm::Registered)
    }

    /// Check if this value is [`UnitForm::BearerRegistered`].
    pub fn is_bearer_registered(&self) -> (r: bool)
        ensures
            r == (self is BearerRegistered),
    {
        matches!(self, UnitForm::BearerRegistered)
    }

    /// Check if this value is [`UnitForm::BearerReceipt`].
    pub fn is_bearer_receipt(&self) -> (r: bool)
        ensures
            r == (self is BearerReceipt),
    {
        matches!(self, UnitForm::BearerReceipt)
    }

    /// Check if this value is [`UnitForm::RegisteredReceipt`].
    pub fn is_registered_receipt(&self) -> (r: bool)
        ensures
            r == (self is RegisteredReceipt),
    {
        matches!(self, UnitForm::RegisteredReceipt)
    }

    /// Check if this value is [`UnitForm::Other`].
    pub fn is_other(&self) -> (r: bool)
        ensures
            r == (self is Other),
    {
        matches!(self, UnitForm::Other)
    }

    /// Check if this value is [`UnitForm::Undefined`].
    pub fn is_undefined(&self) -> (r: bool)
        ensures
            r == (self is Undefined),
    {
        matches!(self, UnitForm::Undefined)
    }
}

/// The encoding of a [`Group::Common`] value re-decodes to itself.
proof fn lemma_decode_encode_common(a: CommonAttributes)
    ensures
        Group::Common(a).spec_bytes().len() == 6,
        Group::Common(a).spec_bytes()[0] == 'E' as u8,
        Group::spec_decode(Group::Common(a).spec_bytes()) == Ok::<Group, Error>(Group::Common(a)),
{
    let s = Group::Common(a).spec_bytes();
    assert(s.len() == 6);
    assert(s[1] == 'S' as u8);
    assert(s[2] == a.voting_right.spec_byte());
    assert(VotingRight::spec_decode(s[2]) == Some(a.voting_right));
    assert(s[3] == a.ownership.spec_byte());
    assert(Ownership::spec_decode(s[3]) == Some(a.ownership));
    assert(s[4] == a.payment_status.spec_byte());
    assert(PaymentStatus::spec_decode(s[4]) == Some(a.payment_status));
    assert(s[5] == a.form.spec_byte());
    assert(Form::spec_decode(s[5]) == Some(a.form));
    assert(CommonAttributes::spec_decode(s) == Ok::<CommonAttributes, Error>(a));
}

/// The encoding of a [`Group::Preferred`] value re-decodes to itself.
proof fn lemma_decode_encode_preferred(a: PreferredAttributes)
    ensures
        Group::Preferred(a).spec_bytes().len() == 6,
        Group::Preferred(a).spec_bytes()[0] == 'E' as u8,
        Group::spec_decode(Group::Preferred(a).spec_bytes()) == Ok::<Group, Error>(Group::Preferred(a)),
{
    let s = Group::Preferred(a).spec_bytes();
    assert(s.len() == 6);
    assert(s[1] == 'P' as u8);
    assert(s[2] == a.voting_right.spec_byte());
    assert(VotingRight::spec_decode(s[2]) == Some(a.voting_right));
    assert(s[3] == a.redemption.spec_byte());
    assert(Redemption::spec_decode(s[3]) == Some(a.redemption));
    assert(s[4] == a.income.spec_byte());
    assert(Income::spec_decode(s[4]) == Some(a.income));
    assert(s[5] == a.form.spec_byte());
    assert(Form::spec_decode(s[5]) == Some(a.form));
    assert(PreferredAttributes::spec_decode(s) == Ok::<PreferredAttributes, Error>(a));
}

/// The encoding of a [`Group::Convertible`] value re-decodes to itself.
proof fn lemma_decode_encode_convertible(a: ConvertibleAttributes)
    ensures
        Group::Convertible(a).spec_bytes().len() == 6,
        Group::Convertible(a).spec_bytes()[0] == 'E' as u8,
        Group::spec_decode(Group::Convertible(a).spec_bytes()) == Ok::<Group, Error>(Group::Convertible(a)),
{
    let s = Group::Convertible(a).spec_bytes();
    assert(s.len() == 6);
    assert(s[1] == 'C' as u8);
    assert(s[2] == a.voting_right.spec_byte());
    assert(VotingRight::spec_decode(s[2]) == Some(a.voting_right));
    assert(s[3] == a.ownership.spec_byte());
    assert(Ownership::spec_decode(s[3]) == Some(a.ownership));
    assert(s[4] == a.payment_status.spec_byte());
    assert(PaymentStatus::spec_decode(s[4]) == Some(a.payment_status));
    assert(s[5] == a.form.spec_byte());
    assert(Form::spec_decode(s[5]) == Some(a.form));
    assert(ConvertibleAttributes::spec_decode(s) == Ok::<ConvertibleAttributes, Error>(a));
}

/// The encoding of a [`Group::PreferedConvertible`] value re-decodes to itself.
proof fn lemma_decode_encode_prefered_convertible(a: PreferredConvertibleAttributes)
    ensures
        Group::PreferedConvertible(a).spec_bytes().len() == 6,
        Group::PreferedConvertible(a).spec_bytes()[0] == 'E' as u8,
        Group::spec_decode(Group::PreferedConvertible(a).spec_bytes()) == Ok::<Group, Error>(Group::PreferedConvertible(a)),
{
    let s = Group::PreferedConvertible(a).spec_bytes();
    assert(s.len() == 6);
    assert(s[1] == 'F' as u8);
    assert(s[2] == a.voting_right.spec_byte());
    assert(VotingRight::spec_decode(s[2]) == Some(a.voting_right));
    assert(s[3] == a.redemption.spec_byte());
    assert(Redemption::spec_decode(s[3]) == Some(a.redemption));
    assert(s[4] == a.income.spec_byte());
    assert(Income::spec_decode(s[4]) == Some(a.income));
    assert(s[5] == a.form.spec_byte());
    assert(Form::spec_decode(s[5]) == Some(a.form));
    assert(PreferredConvertibleAttributes::spec_decode(s) == Ok::<PreferredConvertibleAttributes, Error>(a));
}

/// The encoding of a [`Group::LlpUnit`] value re-decodes to itself.
proof fn lemma_decode_encode_llp_unit(a: LlpAttributes)
    ensures
        Group::LlpUnit(a).spec_bytes().len() == 6,
        Group::LlpUnit(a).spec_bytes()[0] == 'E' as u8,
        Group::spec_decode(Group::LlpUnit(a).spec_bytes()) == Ok::<Group, Error>(Group::LlpUnit(a)),
{
    let s = Group::LlpUnit(a).spec_bytes();
    assert(s.len() == 6);
    assert(s[1] == 'L' as u8);
    assert(s[2] == a.voting_right.spec_byte());
    assert(VotingRight::spec_decode(s[2]) == Some(a.voting_right));
    assert(s[3] == a.ownership.spec_byte());
    assert(Ownership::spec_decode(s[3]) == Some(a.ownership));
    assert(s[4] == a.payment_status.spec_byte());
    assert(PaymentStatus::spec_decode(s[4]) == Some(a.payment_status));
    assert(s[5] == a.form.spec_byte());
    assert(Form::spec_decode(s[5]) == Some(a.form));
    assert(LlpAttributes::spec_decode(s) == Ok::<LlpAttributes, Error>(a));
}

/// The encoding of a [`Group::DepositoryReceipt`] value re-decodes to itself.
proof fn lemma_decode_encode_depository_receipt(a: ReceiptAttributes)
    ensures
        Group::DepositoryReceipt(a).spec_bytes().len() == 6,
        Group::DepositoryReceipt(a).spec_bytes()[0] == 'E' as u8,
        Group::spec_decode(Group::DepositoryReceipt(a).spec_bytes()) == Ok::<Group, Error>(Group::DepositoryReceipt(a)),
{
    let s = Group::DepositoryReceipt(a).spec_bytes();
    assert(s.len() == 6);
    assert(s[1] == 'D' as u8);
    assert(s[2] == a.dependency.spec_byte());
    assert(Dependency::spec_decode(s[2]) == Some(a.dependency));
    assert(s[3] == a.redemption.spec_byte());
    assert(RedemptionConversion::spec_decode(s[3]) == Some(a.redemption));
    assert(s[4] == a.income.spec_byte());
    assert(Income::spec_decode(s[4]) == Some(a.income));
    assert(s[5] == a.form.spec_byte());
    assert(Form::spec_decode(s[5]) == Some(a.form));
    assert(ReceiptAttributes::spec_decode(s) == Ok::<ReceiptAttributes, Error>(a));
}

/// The encoding of a [`Group::Structured`] value re-decodes to itself.
proof fn lemma_decode_encode_structured(a: StructuredAttributes)
    ensures
        Group::Structured(a).spec_bytes().len() == 6,
        Group::Structured(a).spec_bytes()[0] == 'E' as u8,
        Group::spec_decode(Group::Structured(a).spec_bytes()) == Ok::<Group, Error>(Group::Structured(a)),
{
    let s = Group::Structured(a).spec_bytes();
    assert(s.len() == 6);
    assert(s[1] == 'Y' as u8);
    assert(s[2] == a.kind.spec_byte());
    assert(Kind::spec_decode(s[2]) == Some(a.kind));
    assert(s[3] == a.distribution.spec_byte());
    assert(Distribution::spec_decode(s[3]) == Some(a.distribution));
    assert(s[4] == a.repayment.spec_byte());
    assert(Repayment::spec_decode(s[4]) == Some(a.repayment));
    assert(s[5] == a.underlying.spec_byte());
    assert(Underlying::spec_decode(s[5]) == Some(a.underlying));
    assert(StructuredAttributes::spec_decode(s) == Ok::<StructuredAttributes, Error>(a));
}

/// The encoding of a [`Group::Preference`] value re-decodes to itself.
proof fn lemma_decode_encode_preference(a: PreferenceAttributes)
    ensures
        Group::Preference(a).spec_bytes().len() == 6,
        Group::Preference(a).spec_bytes()[0] == 'E' as u8,
        Group::spec_decode(Group::Preference(a).spec_bytes()) == Ok::<Group, Error>(Group::Preference(a)),
{
    let s = Group::Preference(a).spec_bytes();
    assert(s.len() == 6);
    assert(s[1] == 'R' as u8);
    assert(s[2] == a.voting_right.spec_byte());
    assert(VotingRight::spec_decode(s[2]) == Some(a.voting_right));
    assert(s[3] == a.redemption.spec_byte());
    assert(Redemption::spec_decode(s[3]) == Some(a.redemption));
    assert(s[4] == a.income.spec_byte());
    assert(Income::spec_decode(s[4]) == Some(a.income));
    assert(s[5] == a.form.spec_byte());
    assert(Form::spec_decode(s[5]) == Some(a.form));
    assert(PreferenceAttributes::spec_decode(s) == Ok::<PreferenceAttributes, Error>(a));
}

/// The encoding of a [`Group::PreferenceConvertible`] value re-decodes to itself.
proof fn lemma_decode_encode_preference_convertible(a: PreferenceConvertibleAttributes)
    ensures
        Group::PreferenceConvertible(a).spec_bytes().len() == 6,
        Group::PreferenceConvertible(a).spec_bytes()[0] == 'E' as u8,
        Group::spec_decode(Group::PreferenceConvertible(a).spec_bytes()) == Ok::<Group, Error>(Group::PreferenceConvertible(a)),
{
    let s = Group::PreferenceConvertible(a).spec_bytes();
    assert(s.len() == 6);
    assert(s[1] == 'V' as u8);
    assert(s[2] == a.voting_right.spec_byte());
    assert(VotingRight::spec_decode(s[2]) == Some(a.voting_right));
    assert(s[3] == a.redemption.spec_byte());
    assert(Redemption::spec_decode(s[3]) == Some(a.redemption));
    assert(s[4] == a.income.spec_byte());
    assert(Income::spec_decode(s[4]) == Some(a.income));
    assert(s[5] == a.form.spec_byte());
    assert(Form::spec_decode(s[5]) == Some(a.form));
    assert(PreferenceConvertibleAttributes::spec_decode(s) == Ok::<PreferenceConvertibleAttributes, Error>(a));
}

/// The encoding of a [`Group::Unit`] value re-decodes to itself.
proof fn lemma_decode_encode_unit(a: UnitAttributes)
    ensures
        Group::Unit(a).spec_bytes().len() == 6,
        Group::Unit(a).spec_bytes()[0] == 'E' as u8,
        Group::spec_decode(Group::Unit(a).spec_bytes()) == Ok::<Group, Error>(Group::Unit(a)),
{
    let s = Group::Unit(a).spec_bytes();
    assert(s.len() == 6);
    assert(s[1] == 'U' as u8);
    assert(s[2] == a.open_closed.spec_byte());
    assert(OpenClosed::spec_decode(s[2]) == Some(a.open_closed));
    assert(s[3] == a.distribution.spec_byte());
    assert(DistributionPolicy::spec_decode(s[3]) == Some(a.distribution));
    assert(s[4] == a.assets.spec_byte());
    assert(Asset::spec_decode(s[4]) == Some(a.assets));
    assert(s[5] == a.form.spec_byte());
    assert(UnitForm::spec_decode(s[5]) == Some(a.form));
    assert(UnitAttributes::spec_decode(s) == Ok::<UnitAttributes, Error>(a));
}

/// The encoding of a [`Group::Other`] value re-decodes to itself.
proof fn lemma_decode_encode_other(a: OtherAttributes)
    ensures
        Group::Other(a).spec_bytes().len() == 6,
        Group::Other(a).spec_bytes()[0] == 'E' as u8,
        Group::spec_decode(Group::Other(a).spec_bytes()) == Ok::<Group, Error>(Group::Other(a)),
{
    let s = Group::Other(a).spec_bytes();
    assert(s.len() == 6);
    assert(s[1] == 'M' as u8);
    assert(s[2] == a.attr1.spec_byte());
    assert(NotApplicable::spec_decode(s[2]) == Some(a.attr1));
    assert(s[3] == a.attr2.spec_byte());
    assert(NotApplicable::spec_decode(s[3]) == Some(a.attr2));
    assert(s[4] == a.attr3.spec_byte());
    assert(NotApplicable::spec_decode(s[4]) == Some(a.attr3));
    assert(s[5] == a.form.spec_byte());
    assert(Form::spec_decode(s[5]) == Some(a.form));
    assert(OtherAttributes::spec_decode(s) == Ok::<OtherAttributes, Error>(a));
}

/// Every equity group value re-decodes from its own encoding.
pub proof fn lemma_decode_encode(g: Group)
    ensures
        g.spec_bytes().len() == 6,
        g.spec_bytes()[0] == 'E' as u8,
        Group::spec_decode(g.spec_bytes()) == Ok::<Group, Error>(g),
{
    match g {
        Group::Common(a) => lemma_decode_encode_common(a),
        Group::Preferred(a) => lemma_decode_encode_preferred(a),
        Group::Convertible(a) => lemma_decode_encode_convertible(a),
        Group::PreferedConvertible(a) => lemma_decode_encode_prefered_convertible(a),
        Group::LlpUnit(a) => lemma_decode_encode_llp_unit(a),
        Group::DepositoryReceipt(a) => lemma_decode_encode_depository_receipt(a),
        Group::Structured(a) => lemma_decode_encode_structured(a),
        Group::Preference(a) => lemma_decode_encode_preference(a),
        Group::PreferenceConvertible(a) => lemma_decode_encode_preference_convertible(a),
        Group::Unit(a) => lemma_decode_encode_unit(a),
        Group::Other(a) => lemma_decode_encode_other(a),
    }
}

/// Every equity code that decodes successfully re-encodes to the same
/// six bytes.
#[verifier::rlimit(50)]
pub proof fn lemma_encode_decode(s: Seq<u8>, g: Group)
    requires
        Group::spec_decode(s) == Ok::<Group, Error>(g),
        s[0] == 'E' as u8,
    ensures
        g.spec_bytes() == s,
{
    if s[1] == 'S' as u8 {
        assert(g.spec_bytes() =~= s);
    } else if s[1] == 'P' as u8 {
        assert(g.spec_bytes() =~= s);
    } else if s[1] == 'C' as u8 {
        assert(g.spec_bytes() =~= s);
    } else if s[1] == 'F' as u8 {
        assert(g.spec_bytes() =~= s);
    } else if s[1] == 'L' as u8 {
        assert(g.spec_bytes() =~= s);
    } else if s[1] == 'D' as u8 {
        assert(g.spec_bytes() =~= s);
    } else if s[1] == 'Y' as u8 {
        assert(g.spec_bytes() =~= s);
    } else if s[1] == 'R' as u8 {
        assert(g.spec_bytes() =~= s);
    } else if s[1] == 'V' as u8 {
        assert(g.spec_bytes() =~= s);
    } else if s[1] == 'U' as u8 {
        assert(g.spec_bytes() =~= s);
    } else if s[1] == 'M' as u8 {
        assert(g.spec_bytes() =~= s);
    } else {
    }
}

/// Substituting `X` at any attribute position of a equity code that
/// decodes successfully leaves a code that still decodes successfully.
pub proof fn lemma_undefined_universality(s: Seq<u8>, i: int)
    requires
        Group::spec_decode(s) is Ok,
        2 <= i < 6,
    ensures
        Group::spec_decode(s.update(i, 'X' as u8)) is Ok,
{
    let t = s.update(i, 'X' as u8);
    assert(t.len() == s.len());
    assert(t[1] == s[1]);
    assert(t[i] == 'X' as u8);
    assert(forall|j: int| 0 <= j < 6 && j != i ==> t[j] == s[j]);
}

/// A six-byte equity code whose byte 1 is not a group tag is rejected
/// with exactly that byte, whatever the remaining bytes hold.
pub proof fn lemma_invalid_group(s: Seq<u8>)
    requires
        s.len() == 6,
        !Group::spec_group_tag(s[1]),
    ensures
        Group::spec_decode(s) == Err::<Group, Error>(Error::InvalidGroup(s[1])),
{
}

/// When the group tag is legal and position `i` holds the first attribute
/// byte outside its alphabet, decoding reports exactly that position.
pub proof fn lemma_first_invalid_attribute(s: Seq<u8>, i: int)
    requires
        s.len() == 6,
        Group::spec_group_tag(s[1]),
        2 <= i < 6,
        forall|j: int| 2 <= j < i ==> Group::spec_attr_ok(s, j),
        !Group::spec_attr_ok(s, i),
    ensures
        Group::spec_decode(s) == Err::<Group, Error>(Error::InvalidAttribute(i as usize, s[i])),
{
    if i > 2 {
        assert(Group::spec_attr_ok(s, 2));
    }
    if i > 3 {
        assert(Group::spec_attr_ok(s, 3));
    }
    if i > 4 {
        assert(Group::spec_attr_ok(s, 4));
    }
}

/// A six-byte equity code decodes successfully exactly when its group
/// tag and all four attribute bytes are legal.
pub proof fn lemma_ok_iff(s: Seq<u8>)
    requires
        s.len() == 6,
    ensures
        Group::spec_decode(s) is Ok <==> (Group::spec_group_tag(s[1])
            && (forall|j: int| 2 <= j < 6 ==> Group::spec_attr_ok(s, j))),
{
    if Group::spec_group_tag(s[1]) && (forall|j: int| 2 <= j < 6 ==> Group::spec_attr_ok(s, j)) {
        assert(Group::spec_attr_ok(s, 2));
        assert(Group::spec_attr_ok(s, 3));
        assert(Group::spec_attr_ok(s, 4));
        assert(Group::spec_attr_ok(s, 5));
    }
    if Group::spec_decode(s) is Ok {
        assert forall|j: int| 2 <= j < 6 implies Group::spec_attr_ok(s, j) by {
        }
    }
}

impl Attr for VotingRight {
    open spec fn spec_decode_byte(b: u8) -> Option<VotingRight> {
        VotingRight::spec_decode(b)
    }

    fn from_code_byte(value: u8) -> (r: Result<VotingRight, Error>) {
        VotingRight::from_byte(value, 0)
    }
}

impl AttrPos<2> for VotingRight {
}

impl Attr for Ownership {
    open spec fn spec_decode_byte(b: u8) -> Option<Ownership> {
        Ownership::spec_decode(b)
    }

    fn from_code_byte(value: u8) -> (r: Result<Ownership, Error>) {
        Ownership::from_byte(value, 0)
    }
}

impl AttrPos<3> for Ownership {
}

impl Attr for PaymentStatus {
    open spec fn spec_decode_byte(b: u8) -> Option<PaymentStatus> {
        PaymentStatus::spec_decode(b)
    }

    fn from_code_byte(value: u8) -> (r: Result<PaymentStatus, Error>) {
        PaymentStatus::from_byte(value, 0)
    }
}

impl AttrPos<4> for PaymentStatus {
}

impl Attr for Redemption {
    open spec fn spec_decode_byte(b: u8) -> Option<Redemption> {
        Redemption::spec_decode(b)
    }

    fn from_code_byte(value: u8) -> (r: Result<Redemption, Error>) {
        Redemption::from_byte(value, 0)
    }
}

impl AttrPos<3> for Redemption {
}

impl Attr for Income {
    open spec fn spec_decode_byte(b: u8) -> Option<Income> {
        Income::spec_decode(b)
    }

    fn from_code_byte(value: u8) -> (r: Result<Income, Error>) {
        Income::from_byte(value, 0)
    }
}

impl AttrPos<4> for Income {
}

impl Attr for Dependency {
    open spec fn spec_decode_byte(b: u8) -> Option<Dependency> {
        Dependency::spec_decode(b)
    }

    fn from_code_byte(value: u8) -> (r: Result<Dependency, Error>) {
        Dependency::from_byte(value, 0)
    }
}

impl AttrPos<2> for Dependency {
}

impl Attr for RedemptionConversion {
    open spec fn spec_decode_byte(b: u8) -> Option<RedemptionConversion> {
        RedemptionConversion::spec_decode(b)
    }

    fn from_code_byte(value: u8) -> (r: Result<RedemptionConversion, Error>) {
        RedemptionConversion::from_byte(value, 0)
    }
}

impl AttrPos<3> for RedemptionConversion {
}

impl Attr for Kind {
    open spec fn spec_decode_byte(b: u8) -> Option<Kind> {
        Kind::spec_decode(b)
    }

    fn from_code_byte(value: u8) -> (r: Result<Kind, Error>) {
        Kind::from_byte(value, 0)
    }
}

impl AttrPos<2> for Kind {
}

impl Attr for Distribution {
    open spec fn spec_decode_byte(b: u8) -> Option<Distribution> {
        Distribution::spec_decode(b)
    }

    fn from_code_byte(value: u8) -> (r: Result<Distribution, Error>) {
        Distribution::from_byte(value, 0)
    }
}

impl AttrPos<3> for Distribution {
}

impl Attr for Repayment {
    open spec fn spec_decode_byte(b: u8) -> Option<Repayment> {
        Repayment::spec_decode(b)
    }

    fn from_code_byte(value: u8) -> (r: Result<Repayment, Error>) {
        Repayment::from_byte(value, 0)
    }
}

impl AttrPos<4> for Repayment {
}

impl Attr for Underlying {
    open spec fn spec_decode_byte(b: u8) -> Option<Underlying> {
        Underlying::spec_decode(b)
    }

    fn from_code_byte(value: u8) -> (r: Result<Underlying, Error>) {
        Underlying::from_byte(value, 0)
    }
}

impl AttrPos<5> for Underlying {
}

impl Attr for OpenClosed {
    open spec fn spec_decode_byte(b: u8) -> Option<OpenClosed> {
        OpenClosed::spec_decode(b)
    }

    fn from_code_byte(value: u8) -> (r: Result<OpenClosed, Error>) {
        OpenClosed::from_byte(value, 0)
    }
}

impl AttrPos<2> for OpenClosed {
}

impl Attr for DistributionPolicy {
    open spec fn spec_decode_byte(b: u8) -> Option<DistributionPolicy> {
        DistributionPolicy::spec_decode(b)
    }

    fn from_code_byte(value: u8) -> (r: Result<DistributionPolicy, Error>) {
        DistributionPolicy::from_byte(value, 0)
    }
}

impl AttrPos<3> for DistributionPolicy {
}

impl Attr for Asset {
    open spec fn spec_decode_byte(b: u8) -> Option<Asset> {
        Asset::spec_decode(b)
    }

    fn from_code_byte(value: u8) -> (r: Result<Asset, Error>) {
        Asset::from_byte(value, 0)
    }
}

impl AttrPos<4> for Asset {
}

impl Attr for UnitForm {
    open spec fn spec_decode_byte(b: u8) -> Option<UnitForm> {
        UnitForm::spec_decode(b)
    }

    fn from_code_byte(value: u8) -> (r: Result<UnitForm, Error>) {
        UnitForm::from_byte(value, 0)
    }
}

impl AttrPos<5> for UnitForm {
}

impl CfiGroup for CommonAttributes {
    type Attr1 = VotingRight;

    type Attr2 = Ownership;

    type Attr3 = PaymentStatus;

    type Attr4 = Form;

    open spec fn spec_attr1(self) -> VotingRight {
        self.voting_right
    }

    open spec fn spec_attr2(self) -> Ownership {
        self.ownership
    }

    open spec fn spec_attr3(self) -> PaymentStatus {
        self.payment_status
    }

    open spec fn spec_attr4(self) -> Form {
        self.form
    }

    open spec fn spec_from_cfi(s: Seq<u8>) -> Result<CommonAttributes, Error> {
        CommonAttributes::spec_decode(s)
    }

    fn attr1(&self) -> (r: VotingRight) {
        self.voting_right
    }

    fn attr2(&self) -> (r: Ownership) {
        self.ownership
    }

    fn attr3(&self) -> (r: PaymentStatus) {
        self.payment_status
    }

    fn attr4(&self) -> (r: Form) {
        self.form
    }

    fn from_cfi_bytes(value: &[u8]) -> (r: Result<CommonAttributes, Error>) {
        CommonAttributes::from_bytes(value)
    }
}

impl CfiGroup for PreferredAttributes {
    type Attr1 = VotingRight;

    type Attr2 = Redemption;

    type Attr3 = Income;

    type Attr4 = Form;

    open spec fn spec_attr1(self) -> VotingRight {
        self.voting_right
    }

    open spec fn spec_attr2(self) -> Redemption {
        self.redemption
    }

    open spec fn spec_attr3(self) -> Income {
        self.income
    }

    open spec fn spec_attr4(self) -> Form {
        self.form
    }

    open spec fn spec_from_cfi(s: Seq<u8>) -> Result<PreferredAttributes, Error> {
        PreferredAttributes::spec_decode(s)
    }

    fn attr1(&self) -> (r: VotingRight) {
        self.voting_right
    }

    fn attr2(&self) -> (r: Redemption) {
        self.redemption
    }

    fn attr3(&self) -> (r: Income) {
        self.income
    }

    fn attr4(&self) -> (r: Form) {
        self.form
    }

    fn from_cfi_bytes(value: &[u8]) -> (r: Result<PreferredAttributes, Error>) {
        PreferredAttributes::from_bytes(value)
    }
}

impl CfiGroup for ConvertibleAttributes {
    type Attr1 = VotingRight;

    type Attr2 = Ownership;

    type Attr3 = PaymentStatus;

    type Attr4 = Form;

    open spec fn spec_attr1(self) -> VotingRight {
        self.voting_right
    }

    open spec fn spec_attr2(self) -> Ownership {
        self.ownership
    }

    open spec fn spec_attr3(self) -> PaymentStatus {
        self.payment_status
    }

    open spec fn spec_attr4(self) -> Form {
        self.form
    }

    open spec fn spec_from_cfi(s: Seq<u8>) -> Result<ConvertibleAttributes, Error> {
        ConvertibleAttributes::spec_decode(s)
    }

    fn attr1(&self) -> (r: VotingRight) {
        self.voting_right
    }

    fn attr2(&self) -> (r: Ownership) {
        self.ownership
    }

    fn attr3(&self) -> (r: PaymentStatus) {
        self.payment_status
    }

    fn attr4(&self) -> (r: Form) {
        self.form
    }

    fn from_cfi_bytes(value: &[u8]) -> (r: Result<ConvertibleAttributes, Error>) {
        ConvertibleAttributes::from_bytes(value)
    }
}

impl CfiGroup for PreferredConvertibleAttributes {
    type Attr1 = VotingRight;

    type Attr2 = Redemption;

    type Attr3 = Income;

    type Attr4 = Form;

    open spec fn spec_attr1(self) -> VotingRight {
        self.voting_right
    }

    open spec fn spec_attr2(self) -> Redemption {
        self.redemption
    }

    open spec fn spec_attr3(self) -> Income {
        self.income
    }

    open spec fn spec_attr4(self) -> Form {
        self.form
    }

    open spec fn spec_from_cfi(s: Seq<u8>) -> Result<PreferredConvertibleAttributes, Error> {
        PreferredConvertibleAttributes::spec_decode(s)
    }

    fn attr1(&self) -> (r: VotingRight) {
        self.voting_right
    }

    fn attr2(&self) -> (r: Redemption) {
        self.redemption
    }

    fn attr3(&self) -> (r: Income) {
        self.income
    }

    fn attr4(&self) -> (r: Form) {
        self.form
    }

    fn from_cfi_bytes(value: &[u8]) -> (r: Result<PreferredConvertibleAttributes, Error>) {
        PreferredConvertibleAttributes::from_bytes(value)
    }
}

impl CfiGroup for LlpAttributes {
    type Attr1 = VotingRight;

    type Attr2 = Ownership;

    type Attr3 = PaymentStatus;

    type Attr4 = Form;

    open spec fn spec_attr1(self) -> VotingRight {
        self.voting_right
    }

    open spec fn spec_attr2(self) -> Ownership {
        self.ownership
    }

    open spec fn spec_attr3(self) -> PaymentStatus {
        self.payment_status
    }

    open spec fn spec_attr4(self) -> Form {
        self.form
    }

    open spec fn spec_from_cfi(s: Seq<u8>) -> Result<LlpAttributes, Error> {
        LlpAttributes::spec_decode(s)
    }

    fn attr1(&self) -> (r: VotingRight) {
        self.voting_right
    }

    fn attr2(&self) -> (r: Ownership) {
        self.ownership
    }

    fn attr3(&self) -> (r: PaymentStatus) {
        self.payment_status
    }

    fn attr4(&self) -> (r: Form) {
        self.form
    }

    fn from_cfi_bytes(value: &[u8]) -> (r: Result<LlpAttributes, Error>) {
        LlpAttributes::from_bytes(value)
    }
}

impl CfiGroup for ReceiptAttributes {
    type Attr1 = Dependency;

    type Attr2 = RedemptionConversion;

    type Attr3 = Income;

    type Attr4 = Form;

    open spec fn spec_attr1(self) -> Dependency {
        self.dependency
    }

    open spec fn spec_attr2(self) -> RedemptionConversion {
        self.redemption
    }

    open spec fn spec_attr3(self) -> Income {
        self.income
    }

    open spec fn spec_attr4(self) -> Form {
        self.form
    }

    open spec fn spec_from_cfi(s: Seq<u8>) -> Result<ReceiptAttributes, Error> {
        ReceiptAttributes::spec_decode(s)
    }

    fn attr1(&self) -> (r: Dependency) {
        self.dependency
    }

    fn attr2(&self) -> (r: RedemptionConversion) {
        self.redemption
    }

    fn attr3(&self) -> (r: Income) {
        self.income
    }

    fn attr4(&self) -> (r: Form) {
        self.form
    }

    fn from_cfi_bytes(value: &[u8]) -> (r: Result<ReceiptAttributes, Error>) {
        ReceiptAttributes::from_bytes(value)
    }
}

impl CfiGroup for StructuredAttributes {
    type Attr1 = Kind;

    type Attr2 = Distribution;

    type Attr3 = Repayment;

    type Attr4 = Underlying;

    open spec fn spec_attr1(self) -> Kind {
        self.kind
    }

    open spec fn spec_attr2(self) -> Distribution {
        self.distribution
    }

    open spec fn spec_attr3(self) -> Repayment {
        self.repayment
    }

    open spec fn spec_attr4(self) -> Underlying {
        self.underlying
    }

    open spec fn spec_from_cfi(s: Seq<u8>) -> Result<StructuredAttributes, Error> {
        StructuredAttributes::spec_decode(s)
    }

    fn attr1(&self) -> (r: Kind) {
        self.kind
    }

    fn attr2(&self) -> (r: Distribution) {
        self.distribution
    }

    fn attr3(&self) -> (r: Repayment) {
        self.repayment
    }

    fn attr4(&self) -> (r: Underlying) {
        self.underlying
    }

    fn from_cfi_bytes(value: &[u8]) -> (r: Result<StructuredAttributes, Error>) {
        StructuredAttributes::from_bytes(value)
    }
}

impl CfiGroup for PreferenceAttributes {
    type Attr1 = VotingRight;

    type Attr2 = Redemption;

    type Attr3 = Income;

    type Attr4 = Form;

    open spec fn spec_attr1(self) -> VotingRight {
        self.voting_right
    }

    open spec fn spec_attr2(self) -> Redemption {
        self.redemption
    }

    open spec fn spec_attr3(self) -> Income {
        self.income
    }

    open spec fn spec_attr4(self) -> Form {
        self.form
    }

    open spec fn spec_from_cfi(s: Seq<u8>) -> Result<PreferenceAttributes, Error> {
        PreferenceAttributes::spec_decode(s)
    }

    fn attr1(&self) -> (r: VotingRight) {
        self.voting_right
    }

    fn attr2(&self) -> (r: Redemption) {
        self.redemption
    }

    fn attr3(&self) -> (r: Income) {
        self.income
    }

    fn attr4(&self) -> (r: Form) {
        self.form
    }

    fn from_cfi_bytes(value: &[u8]) -> (r: Result<PreferenceAttributes, Error>) {
        PreferenceAttributes::from_bytes(value)
    }
}

impl CfiGroup for PreferenceConvertibleAttributes {
    type Attr1 = VotingRight;

    type Attr2 = Redemption;

    type Attr3 = Income;

    type Attr4 = Form;

    open spec fn spec_attr1(self) -> VotingRight {
        self.voting_right
    }

    open spec fn spec_attr2(self) -> Redemption {
        self.redemption
    }

    open spec fn spec_attr3(self) -> Income {
        self.income
    }

    open spec fn spec_attr4(self) -> Form {
        self.form
    }

    open spec fn spec_from_cfi(s: Seq<u8>) -> Result<PreferenceConvertibleAttributes, Error> {
        PreferenceConvertibleAttributes::spec_decode(s)
    }

    fn attr1(&self) -> (r: VotingRight) {
        self.voting_right
    }

    fn attr2(&self) -> (r: Redemption) {
        self.redemption
    }

    fn attr3(&self) -> (r: Income) {
        self.income
    }

    fn attr4(&self) -> (r: Form) {
        self.form
    }

    fn from_cfi_bytes(value: &[u8]) -> (r: Result<PreferenceConvertibleAttributes, Error>) {
        PreferenceConvertibleAttributes::from_bytes(value)
    }
}

impl CfiGroup for UnitAttributes {
    type Attr1 = OpenClosed;

    type Attr2 = DistributionPolicy;

    type Attr3 = Asset;

    type Attr4 = UnitForm;

    open spec fn spec_attr1(self) -> OpenClosed {
        self.open_closed
    }

    open spec fn spec_attr2(self) -> DistributionPolicy {
        self.distribution
    }

    open spec fn spec_attr3(self) -> Asset {
        self.assets
    }

    open spec fn spec_attr4(self) -> UnitForm {
        self.form
    }

    open spec fn spec_from_cfi(s: Seq<u8>) -> Result<UnitAttributes, Error> {
        UnitAttributes::spec_decode(s)
    }

    fn attr1(&self) -> (r: OpenClosed) {
        self.open_closed
    }

    fn attr2(&self) -> (r: DistributionPolicy) {
        self.distribution
    }

    fn attr3(&self) -> (r: Asset) {
        self.assets
    }

    fn attr4(&self) -> (r: UnitForm) {
        self.form
    }

    fn from_cfi_bytes(value: &[u8]) -> (r: Result<UnitAttributes, Error>) {
        UnitAttributes::from_bytes(value)
    }
}

impl CfiGroup for OtherAttributes {
    type Attr1 = NotApplicable;

    type Attr2 = NotApplicable;

    type Attr3 = NotApplicable;

    type Attr4 = Form;

    open spec fn spec_attr1(self) -> NotApplicable {
        self.attr1
    }

    open spec fn spec_attr2(self) -> NotApplicable {
        self.attr2
    }

    open spec fn spec_attr3(self) -> NotApplicable {
        self.attr3
    }

    open spec fn spec_attr4(self) -> Form {
        self.form
    }

    open spec fn spec_from_cfi(s: Seq<u8>) -> Result<OtherAttributes, Error> {
        OtherAttributes::spec_decode(s)
    }

    fn attr1(&self) -> (r: NotApplicable) {
        self.attr1
    }

    fn attr2(&self) -> (r: NotApplicable) {
        self.attr2
    }

    fn attr3(&self) -> (r: NotApplicable) {
        self.attr3
    }

    fn attr4(&self) -> (r: Form) {
        self.form
    }

    fn from_cfi_bytes(value: &[u8]) -> (r: Result<OtherAttributes, Error>) {
        OtherAttributes::from_bytes(value)
    }
}

} // verus!
