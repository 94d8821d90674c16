//! ISO 10962 types for the classification of financial instruments.
//!
//! A CFI code is a six-character ASCII string with a rigid positional
//! grammar: byte 0 selects a category, byte 1 selects a group within that
//! category, and bytes 2-5 each carry one attribute whose alphabet is fixed
//! by the (category, group) pair and the position. Decoding validates every
//! character against exactly the alphabet legal for its position and builds
//! a typed, immutable value; encoding reproduces the original bytes.

use vstd::prelude::*;

pub mod civ;
pub mod debt;
pub mod equity;
pub mod futures;
pub mod options;
pub mod rights;
pub mod swaps;

verus! {

/// The length of a CFI code, in bytes.
pub const CFI_LENGTH: usize = 6;

/// A failure to decode a CFI code.
///
/// Decoding fails fast: the error always describes the earliest invalid
/// position in scan order (length, then byte 0, then byte 1, then bytes
/// 2-5 in ascending order), and the offending byte and its position are
/// always recoverable from the error value.
#[derive(Clone, Copy, Debug, Eq, Hash, Ord, PartialEq, PartialOrd, Structural)]
pub enum Error {
    /// The input is not exactly [`CFI_LENGTH`] bytes long.
    InvalidLength,
    /// Byte 0 is not one of the closed set of category tags.
    InvalidCategory(u8),
    /// Byte 1 is not a group tag of the already-selected category.
    InvalidGroup(u8),
    /// One of bytes 2-5 lies outside the alphabet of the attribute bound
    /// to that position; carries the 0-based position and the byte.
    InvalidAttribute(usize, u8),
}

/// Form (negotiability, transmission).
#[derive(Clone, Copy, Debug, Eq, Hash, Ord, PartialEq, PartialOrd, Structural)]
pub enum Form {
    /// `B`: Bearer (the owner is not registered in the books of the issuer
    /// or of the registrar).
    Bearer,
    /// `R`: Registered (securities are recorded in the name of the owner
    /// on the books of the issuer or the issuer's registrar and can only
    /// be transferred to another owner when endorsed by the registered
    /// owner).
    Registered,
    /// `N`: Bearer/registered (securities are issued in both bearer and
    /// registered form but with the same identification number).
    BearerRegistered,
    /// `M`: Others (miscellaneous).
    Other,
    /// `X`: Not applicable or undefined.
    Undefined,
}

impl Form {
    /// The code character assigned to this value.
    pub open spec fn spec_byte(self) -> u8 {
        match self {
            Form::Bearer => 'B' as u8,
            Form::Registered => 'R' as u8,
            Form::BearerRegistered => 'N' as u8,
            Form::Other => 'M' as u8,
            Form::Undefined => 'X' as u8,
        }
    }

    /// The member encoded by `b`, if `b` lies in this attribute's alphabet.
    pub open spec fn spec_decode(b: u8) -> Option<Form> {
        if b == 'B' as u8 {
            Some(Form::Bearer)
        } else if b == 'R' as u8 {
            Some(Form::Registered)
        } else if b == 'N' as u8 {
            Some(Form::BearerRegistered)
        } else if b == 'M' as u8 {
            Some(Form::Other)
        } else if b == 'X' as u8 {
            Some(Form::Undefined)
        } else {
            None
        }
    }

    /// Decode the attribute byte found at position `pos` of a code.
    pub fn from_byte(b: u8, pos: usize) -> (r: Result<Form, Error>)
        ensures
            match Form::spec_decode(b) {
                Some(a) => r == Ok::<Form, Error>(a),
                None => r == Err::<Form, Error>(Error::InvalidAttribute(pos, b)),
            },
    {
        if b == 'B' as u8 {
            Ok(Form::Bearer)
        } else if b == 'R' as u8 {
            Ok(Form::Registered)
        } else if b == 'N' as u8 {
            Ok(Form::BearerRegistered)
        } else if b == 'M' as u8 {
            Ok(Form::Other)
        } else if b == 'X' as u8 {
            Ok(Form::Undefined)
        } else {
            Err(Error::InvalidAttribute(pos, b))
        }
    }

    /// The byte this value encodes to; the inverse of decoding.
    pub fn to_byte(&self) -> (r: u8)
        ensures
            r == self.spec_byte(),
    {
        match self {
            Form::Bearer => 'B' as u8,
            Form::Registered => 'R' as u8,
            Form::BearerRegistered => 'N' as u8,
            Form::Other => 'M' as u8,
            Form::Undefined => 'X' as u8,
        }
    }

    /// Check if this value is [`Form::Bearer`].
    pub fn is_bearer(&self) -> (r: bool)
        ensures
            r == (self is Bearer),
    {
        matches!(self, Form::Bearer)
    }

    /// Check if this value is [`Form::Registered`].
    pub fn is_registered(&self) -> (r: bool)
        ensures
            r == (self is Registered),
    {
        matches!(self, Form::Registered)
    }

    /// Check if this value is [`Form::BearerRegistered`].
    pub fn is_bearer_registered(&self) -> (r: bool)
        ensures
            r == (self is BearerRegistered),
    {
        matches!(self, Form::BearerRegistered)
    }

    /// Check if this value is [`Form::Other`].
    pub fn is_other(&self) -> (r: bool)
        ensures
            r == (self is Other),
    {
        matches!(self, Form::Other)
    }

    /// Check if this value is [`Form::Undefined`].
    pub fn is_undefined(&self) -> (r: bool)
        ensures
            r == (self is Undefined),
    {
        matches!(self, Form::Undefined)
    }
}

/// Not applicable/undefined.
#[derive(Clone, Copy, Debug, Eq, Hash, Ord, PartialEq, PartialOrd, Structural)]
pub enum NotApplicable {
    /// `X`: Not applicable or undefined.
    Undefined,
}

impl NotApplicable {
    /// The code character assigned to this value.
    pub open spec fn spec_byte(self) -> u8 {
        match self {
            NotApplicable::Undefined => 'X' as u8,
        }
    }

    /// The member encoded by `b`, if `b` lies in this attribute's alphabet.
    pub open spec fn spec_decode(b: u8) -> Option<NotApplicable> {
        if b == 'X' as u8 {
            Some(NotApplicable::Undefined)
        } else {
            None
        }
    }

    /// Decode the attribute byte found at position `pos` of a code.
    pub fn from_byte(b: u8, pos: usize) -> (r: Result<NotApplicable, Error>)
        ensures
            match NotApplicable::spec_decode(b) {
                Some(a) => r == Ok::<NotApplicable, Error>(a),
                None => r == Err::<NotApplicable, Error>(Error::InvalidAttribute(pos, b)),
            },
    {
        if b == 'X' as u8 {
            Ok(NotApplicable::Undefined)
        } else {
            Err(Error::InvalidAttribute(pos, b))
        }
    }

    /// The byte this value encodes to; the inverse of decoding.
    pub fn to_byte(&self) -> (r: u8)
        ensures
            r == self.spec_byte(),
    {
        match self {
            NotApplicable::Undefined => 'X' as u8,
        }
    }

    /// Check if this value is [`NotApplicable::Undefined`].
    pub fn is_undefined(&self) -> (r: bool)
        ensures
            r == (self is Undefined),
    {
        matches!(self, NotApplicable::Undefined)
    }
}

impl Default for NotApplicable {
    /// The one member, `Undefined`.
    fn default() -> (r: NotApplicable)
        ensures
            r == NotApplicable::Undefined,
    {
        NotApplicable::Undefined
    }
}

/// Standardized/non-standardized.
#[derive(Clone, Copy, Debug, Eq, Hash, Ord, PartialEq, PartialOrd, Structural)]
pub enum Standardized {
    /// `S`: Standardized (the underlying instruments, exercise price, expiration date and contract size are standardized; these contracts are traded on special exchanges).
    Standardized,
    /// `N`: Non-standardized (contracts which have non-standard delivery or expiry terms).
    NonStandardized,
    /// `X`: Not applicable or undefined.
    Undefined,
}

impl Standardized {
    /// The code character assigned to this value.
    pub open spec fn spec_byte(self) -> u8 {
        match self {
            Standardized::Standardized => 'S' as u8,
            Standardized::NonStandardized => 'N' as u8,
            Standardized::Undefined => 'X' as u8,
        }
    }

    /// The member encoded by `b`, if `b` lies in this attribute's alphabet.
    pub open spec fn spec_decode(b: u8) -> Option<Standardized> {
        if b == 'S' as u8 {
            Some(Standardized::Standardized)
        } else if b == 'N' as u8 {
            Some(Standardized::NonStandardized)
        } else if b == 'X' as u8 {
            Some(Standardized::Undefined)
        } else {
            None
        }
    }

    /// Decode the attribute byte found at position `pos` of a code.
    pub fn from_byte(b: u8, pos: usize) -> (r: Result<Standardized, Error>)
        ensures
            match Standardized::spec_decode(b) {
                Some(a) => r == Ok::<Standardized, Error>(a),
                None => r == Err::<Standardized, Error>(Error::InvalidAttribute(pos, b)),
            },
    {
        if b == 'S' as u8 {
            Ok(Standardized::Standardized)
        } else if b == 'N' as u8 {
            Ok(Standardized::NonStandardized)
        } else if b == 'X' as u8 {
            Ok(Standardized::Undefined)
        } else {
            Err(Error::InvalidAttribute(pos, b))
        }
    }

    /// The byte this value encodes to; the inverse of decoding.
    pub fn to_byte(&self) -> (r: u8)
        ensures
            r == self.spec_byte(),
    {
        match self {
            Standardized::Standardized => 'S' as u8,
            Standardized::NonStandardized => 'N' as u8,
            Standardized::Undefined => 'X' as u8,
        }
    }

    /// Check if this value is [`Standardized::Standardized`].
    pub fn is_standardized(&self) -> (r: bool)
        ensures
            r == (self is Standardized),
    {
        matches!(self, Standardized::Standardized)
    }

    /// Check if this value is [`Standardized::NonStandardized`].
    pub fn is_non_standardized(&self) -> (r: bool)
        ensures
            r == (self is NonStandardized),
    {
        matches!(self, Standardized::NonStandardized)
    }

    /// Check if this value is [`Standardized::Undefined`].
    pub fn is_undefined(&self) -> (r: bool)
        ensures
            r == (self is Undefined),
    {
        matches!(self, Standardized::Undefined)
    }
}

/// A trait implemented by CFI code attributes used to parse a code.
pub trait Attr: Sized {
    /// The member encoded by `b`, if `b` lies in this attribute's alphabet.
    spec fn spec_decode_byte(b: u8) -> Option<Self>;

    /// Attempt to parse the given ASCII byte as this attribute.
    fn from_code_byte(value: u8) -> (r: Result<Self, Error>)
        ensures
            match Self::spec_decode_byte(value) {
                Some(a) => r == Ok::<Self, Error>(a),
                None => r == Err::<Self, Error>(Error::InvalidAttribute(0, value)),
            };
}

/// A trait implemented by CFI code attributes used to parse an attribute
/// out of a full six-byte code, at the fixed position `INDEX`.
pub trait AttrPos<const INDEX: usize>: Attr {
    /// Attempt to parse the byte at position `INDEX` of a six-byte code.
    /// A rejected byte is reported with its position, `INDEX`.
    fn from_cfi_bytes(value: &[u8]) -> (r: Result<Self, Error>)
        requires
            2 <= INDEX < CFI_LENGTH,
        ensures
            value@.len() != 6 ==> r == Err::<Self, Error>(Error::InvalidLength),
            value@.len() == 6 ==> (match Self::spec_decode_byte(value@[INDEX as int]) {
                Some(a) => r == Ok::<Self, Error>(a),
                None => r == Err::<Self, Error>(
                    Error::InvalidAttribute(INDEX, value@[INDEX as int]),
                ),
            }),
    {
        if value.len() != CFI_LENGTH {
            return Err(Error::InvalidLength);
        }
        match Self::from_code_byte(value[INDEX]) {
            Ok(a) => Ok(a),
            Err(_) => Err(Error::InvalidAttribute(INDEX, value[INDEX])),
        }
    }
}

/// A CFI group is a four-attribute aggregate bound to byte positions 2-5
/// of the six-byte code.
pub trait CfiGroup: Sized {
    /// The type of the first attribute.
    type Attr1: AttrPos<2>;

    /// The type of the second attribute.
    type Attr2: AttrPos<3>;

    /// The type of the third attribute.
    type Attr3: AttrPos<4>;

    /// The type of the fourth attribute.
    type Attr4: AttrPos<5>;

    /// The first attribute, as stored.
    spec fn spec_attr1(self) -> Self::Attr1;

    /// The second attribute, as stored.
    spec fn spec_attr2(self) -> Self::Attr2;

    /// The third attribute, as stored.
    spec fn spec_attr3(self) -> Self::Attr3;

    /// The fourth attribute, as stored.
    spec fn spec_attr4(self) -> Self::Attr4;

    /// The aggregate encoded in positions 2-5 of the six-byte code `s`, or
    /// the error for the first invalid position.
    spec fn spec_from_cfi(s: Seq<u8>) -> Result<Self, Error>;

    /// Retrieve the first attribute.
    fn attr1(&self) -> (r: Self::Attr1)
        ensures
            r == self.spec_attr1();

    /// Retrieve the second attribute.
    fn attr2(&self) -> (r: Self::Attr2)
        ensures
            r == self.spec_attr2();

    /// Retrieve the third attribute.
    fn attr3(&self) -> (r: Self::Attr3)
        ensures
            r == self.spec_attr3();

    /// Retrieve the fourth attribute.
    fn attr4(&self) -> (r: Self::Attr4)
        ensures
            r == self.spec_attr4();

    /// Parse the given six-byte code into this aggregate, failing on the
    /// first invalid position.
    fn from_cfi_bytes(value: &[u8]) -> (r: Result<Self, Error>)
        ensures
            r == Self::spec_from_cfi(value@);
}

impl Attr for Form {
    open spec fn spec_decode_byte(b: u8) -> Option<Form> {
        Form::spec_decode(b)
    }

    fn from_code_byte(value: u8) -> (r: Result<Form, Error>) {
        Form::from_byte(value, 0)
    }
}

impl AttrPos<5> for Form {
}

impl Attr for NotApplicable {
    open spec fn spec_decode_byte(b: u8) -> Option<NotApplicable> {
        NotApplicable::spec_decode(b)
    }

    fn from_code_byte(value: u8) -> (r: Result<NotApplicable, Error>) {
        NotApplicable::from_byte(value, 0)
    }
}

impl AttrPos<2> for NotApplicable {
}

impl AttrPos<3> for NotApplicable {
}

impl AttrPos<4> for NotApplicable {
}

impl AttrPos<5> for NotApplicable {
}

impl Attr for Standardized {
    open spec fn spec_decode_byte(b: u8) -> Option<Standardized> {
        Standardized::spec_decode(b)
    }

    fn from_code_byte(value: u8) -> (r: Result<Standardized, Error>) {
        Standardized::from_byte(value, 0)
    }
}

impl AttrPos<4> for Standardized {
}

impl AttrPos<5> for Standardized {
}

/// A hierarchical enumeration of CFI codes.
///
/// A value of this type exists only as the result of a successful decode of
/// a six-byte code: byte 0 selected the category, and for the structured
/// categories byte 1 selected the group and bytes 2-5 its four attributes.
/// Single-tag categories carry no further structure; their remaining bytes
/// are not validated and encode to the `X` placeholder.
#[derive(Clone, Copy, Debug, Eq, Hash, Ord, PartialEq, PartialOrd, Structural)]
pub enum Code {
    /// `E`: Equities.
    ///
    /// Financial instruments representing an ownership interest in an entity or pool of assets.
    Equity(equity::Group),
    /// `D`: Debt instruments.
    ///
    /// Financial instruments evidencing monies owed by the issuer to the holder on terms as
    /// specified.
    Debt(debt::Debt),
    /// `C`: Collective investment vehicles.
    ///
    /// Securities representing a portion of assets pooled by investors run by a management
    /// company whose share capital remains separate from such assets.
    Civ(civ::Civ),
    /// `R`: Entitlement (rights).
    ///
    /// Financial instruments providing the holder with the privilege to subscribe to or
    /// receive specific assets on terms specified.
    Right(rights::Right),
    /// `O`: Listed options.
    ///
    /// Contracts that grant to the holder either the privilege to purchase or the privilege
    /// to sell the assets specified at a predetermined price or formula at or within a time
    /// in the future.
    ListedOption(options::Listed),
    /// `F`: Futures.
    ///
    /// Contracts, listed on an exchange or regulated market, which obligate the buyer to
    /// receive and the seller to deliver in the future the assets specified at an agreed
    /// price.
    Future(futures::Future),
    /// `S`: Swaps.
    ///
    /// An agreement or contract where two counterparties agree to exchange periodic streams
    /// of cash flows with each other.
    Swap(swaps::Swap),
    /// `H`: Non-listed and complex listed options.
    ///
    /// OTC or unlisted options, and any listed option which is not captured by the listed
    /// options category.
    UnlistedOption,
    /// `I`: Spot.
    ///
    /// Contracts conducted on the spot market which are bought and sold for cash with
    /// immediate delivery based on market convention for the asset.
    Spot,
    /// `J`: Forwards.
    ///
    /// Contracts, which are not exchange traded or listed, entered between two parties to
    /// buy or sell the underlying asset at a specified future date at the price specified at
    /// the outset of the contract.
    Forward,
    /// `K`: Strategies.
    ///
    /// The simultaneous trading of two or more derivative instruments.
    Strategy,
    /// `L`: Financing.
    ///
    /// A collateralized loan agreement entered into between two parties where one party,
    /// the lender, lends (temporarily) the underlying asset which is secured with cash or
    /// other acceptable collateral provided by the borrower.
    Financing,
    /// `T`: Referential instruments.
    ///
    /// Indicators that are used as a reference for other financial instruments.
    Referential,
    /// `M`: Miscellaneous/other instruments.
    ///
    /// Financial instruments that do not fit the other categories as defined.
    Misc,
}

impl Code {
    /// Whether `b` is one of the closed set of category tags.
    pub open spec fn spec_category_tag(b: u8) -> bool {
        b == 'E' as u8
            || b == 'D' as u8
            || b == 'C' as u8
            || b == 'R' as u8
            || b == 'O' as u8
            || b == 'F' as u8
            || b == 'S' as u8
            || b == 'H' as u8
            || b == 'I' as u8
            || b == 'J' as u8
            || b == 'K' as u8
            || b == 'L' as u8
            || b == 'T' as u8
            || b == 'M' as u8
    }

    /// Whether `b` tags a category with internal group structure.
    pub open spec fn spec_structured_category(b: u8) -> bool {
        b == 'E' as u8
            || b == 'D' as u8
            || b == 'C' as u8
            || b == 'R' as u8
            || b == 'O' as u8
            || b == 'F' as u8
            || b == 'S' as u8
    }

    /// Whether `b` is a legal group tag for the category tagged `cat`;
    /// single-tag categories place no constraint on byte 1.
    pub open spec fn spec_group_tag_of(cat: u8, b: u8) -> bool {
        if cat == 'E' as u8 {
            equity::Group::spec_group_tag(b)
        } else if cat == 'D' as u8 {
            debt::Debt::spec_group_tag(b)
        } else if cat == 'C' as u8 {
            civ::Civ::spec_group_tag(b)
        } else if cat == 'R' as u8 {
            rights::Right::spec_group_tag(b)
        } else if cat == 'O' as u8 {
            options::Listed::spec_group_tag(b)
        } else if cat == 'F' as u8 {
            futures::Future::spec_group_tag(b)
        } else if cat == 'S' as u8 {
            swaps::Swap::spec_group_tag(b)
        } else {
            true
        }
    }

    /// Whether byte `j` of `s` lies in the alphabet that the schema
    /// selected by bytes 0 and 1 assigns to position `j`; single-tag
    /// categories place no constraint on bytes 2-5.
    pub open spec fn spec_attr_ok_at(s: Seq<u8>, j: int) -> bool
        recommends
            s.len() == 6,
            2 <= j < 6,
    {
        if s[0] == 'E' as u8 {
            equity::Group::spec_attr_ok(s, j)
        } else if s[0] == 'D' as u8 {
            debt::Debt::spec_attr_ok(s, j)
        } else if s[0] == 'C' as u8 {
            civ::Civ::spec_attr_ok(s, j)
        } else if s[0] == 'R' as u8 {
            rights::Right::spec_attr_ok(s, j)
        } else if s[0] == 'O' as u8 {
            options::Listed::spec_attr_ok(s, j)
        } else if s[0] == 'F' as u8 {
            futures::Future::spec_attr_ok(s, j)
        } else if s[0] == 'S' as u8 {
            swaps::Swap::spec_attr_ok(s, j)
        } else {
            true
        }
    }

    /// Whether `s` is a well-formed six-byte code: legal category tag,
    /// legal group tag within that category, and every attribute byte in
    /// the alphabet its position is bound to.
    pub open spec fn spec_valid(s: Seq<u8>) -> bool {
        &&& s.len() == 6
        &&& Code::spec_category_tag(s[0])
        &&& Code::spec_group_tag_of(s[0], s[1])
        &&& forall|j: int| 2 <= j < 6 ==> Code::spec_attr_ok_at(s, j)
    }

    /// The six-byte encoding of this code.
    pub open spec fn spec_bytes(self) -> Seq<u8> {
        match self {
            Code::Equity(g) => g.spec_bytes(),
            Code::Debt(g) => g.spec_bytes(),
            Code::Civ(g) => g.spec_bytes(),
            Code::Right(g) => g.spec_bytes(),
            Code::ListedOption(g) => g.spec_bytes(),
            Code::Future(g) => g.spec_bytes(),
            Code::Swap(g) => g.spec_bytes(),
            Code::UnlistedOption => seq!['H' as u8, 'X' as u8, 'X' as u8, 'X' as u8, 'X' as u8, 'X' as u8],
            Code::Spot => seq!['I' as u8, 'X' as u8, 'X' as u8, 'X' as u8, 'X' as u8, 'X' as u8],
            Code::Forward => seq!['J' as u8, 'X' as u8, 'X' as u8, 'X' as u8, 'X' as u8, 'X' as u8],
            Code::Strategy => seq!['K' as u8, 'X' as u8, 'X' as u8, 'X' as u8, 'X' as u8, 'X' as u8],
            Code::Financing => seq!['L' as u8, 'X' as u8, 'X' as u8, 'X' as u8, 'X' as u8, 'X' as u8],
            Code::Referential => seq!['T' as u8, 'X' as u8, 'X' as u8, 'X' as u8, 'X' as u8, 'X' as u8],
            Code::Misc => seq!['M' as u8, 'X' as u8, 'X' as u8, 'X' as u8, 'X' as u8, 'X' as u8],
        }
    }

    /// The code encoded by `s`, or the error for the earliest invalid
    /// position in scan order.
    pub open spec fn spec_decode(s: Seq<u8>) -> Result<Code, Error> {
        if s.len() != 6 {
            Err(Error::InvalidLength)
        } else if s[0] == 'E' as u8 {
            match equity::Group::spec_decode(s) {
                Ok(g) => Ok(Code::Equity(g)),
                Err(e) => Err(e),
            }
        } else if s[0] == 'D' as u8 {
            match debt::Debt::spec_decode(s) {
                Ok(g) => Ok(Code::Debt(g)),
                Err(e) => Err(e),
            }
        } else if s[0] == 'C' as u8 {
            match civ::Civ::spec_decode(s) {
                Ok(g) => Ok(Code::Civ(g)),
                Err(e) => Err(e),
            }
        } else if s[0] == 'R' as u8 {
            match rights::Right::spec_decode(s) {
                Ok(g) => Ok(Code::Right(g)),
                Err(e) => Err(e),
            }
        } else if s[0] == 'O' as u8 {
            match options::Listed::spec_decode(s) {
                Ok(g) => Ok(Code::ListedOption(g)),
                Err(e) => Err(e),
            }
        } else if s[0] == 'F' as u8 {
            match futures::Future::spec_decode(s) {
                Ok(g) => Ok(Code::Future(g)),
                Err(e) => Err(e),
            }
        } else if s[0] == 'S' as u8 {
            match swaps::Swap::spec_decode(s) {
                Ok(g) => Ok(Code::Swap(g)),
                Err(e) => Err(e),
            }
        } else if s[0] == 'H' as u8 {
            Ok(Code::UnlistedOption)
        } else if s[0] == 'I' as u8 {
            Ok(Code::Spot)
        } else if s[0] == 'J' as u8 {
            Ok(Code::Forward)
        } else if s[0] == 'K' as u8 {
            Ok(Code::Strategy)
        } else if s[0] == 'L' as u8 {
            Ok(Code::Financing)
        } else if s[0] == 'T' as u8 {
            Ok(Code::Referential)
        } else if s[0] == 'M' as u8 {
            Ok(Code::Misc)
        } else {
            Err(Error::InvalidCategory(s[0]))
        }
    }

    /// Parse the given byte slice into a code, validating every position
    /// against exactly the alphabet the schema assigns to it and failing
    /// fast on the earliest invalid position in scan order.
    pub fn from_bytes(src: &[u8]) -> (r: Result<Code, Error>)
        ensures
            r == Code::spec_decode(src@),
    {
        if src.len() != CFI_LENGTH {
            return Err(Error::InvalidLength);
        }
        if src[0] == 'E' as u8 {
            match equity::Group::from_bytes(src) {
                Ok(g) => Ok(Code::Equity(g)),
                Err(e) => Err(e),
            }
        } else if src[0] == 'D' as u8 {
            match debt::Debt::from_bytes(src) {
                Ok(g) => Ok(Code::Debt(g)),
                Err(e) => Err(e),
            }
        } else if src[0] == 'C' as u8 {
            match civ::Civ::from_bytes(src) {
                Ok(g) => Ok(Code::Civ(g)),
                Err(e) => Err(e),
            }
        } else if src[0] == 'R' as u8 {
            match rights::Right::from_bytes(src) {
                Ok(g) => Ok(Code::Right(g)),
                Err(e) => Err(e),
            }
        } else if src[0] == 'O' as u8 {
            match options::Listed::from_bytes(src) {
                Ok(g) => Ok(Code::ListedOption(g)),
                Err(e) => Err(e),
            }
        } else if src[0] == 'F' as u8 {
            match futures::Future::from_bytes(src) {
                Ok(g) => Ok(Code::Future(g)),
                Err(e) => Err(e),
            }
        } else if src[0] == 'S' as u8 {
            match swaps::Swap::from_bytes(src) {
                Ok(g) => Ok(Code::Swap(g)),
                Err(e) => Err(e),
            }
        } else if src[0] == 'H' as u8 {
            Ok(Code::UnlistedOption)
        } else if src[0] == 'I' as u8 {
            Ok(Code::Spot)
        } else if src[0] == 'J' as u8 {
            Ok(Code::Forward)
        } else if src[0] == 'K' as u8 {
            Ok(Code::Strategy)
        } else if src[0] == 'L' as u8 {
            Ok(Code::Financing)
        } else if src[0] == 'T' as u8 {
            Ok(Code::Referential)
        } else if src[0] == 'M' as u8 {
            Ok(Code::Misc)
        } else {
            Err(Error::InvalidCategory(src[0]))
        }
    }

    /// Serialize this code to its six-byte encoding.
    pub fn to_bytes(&self) -> (r: [u8; CFI_LENGTH])
        ensures
            r@ == self.spec_bytes(),
    {
        match self {
            Code::Equity(g) => g.to_bytes(),
            Code::Debt(g) => g.to_bytes(),
            Code::Civ(g) => g.to_bytes(),
            Code::Right(g) => g.to_bytes(),
            Code::ListedOption(g) => g.to_bytes(),
            Code::Future(g) => g.to_bytes(),
            Code::Swap(g) => g.to_bytes(),
            Code::UnlistedOption => {
                let r = ['H' as u8, 'X' as u8, 'X' as u8, 'X' as u8, 'X' as u8, 'X' as u8];
                proof {
                    assert(r@ =~= self.spec_bytes());
                }
                r
            },
            Code::Spot => {
                let r = ['I' as u8, 'X' as u8, 'X' as u8, 'X' as u8, 'X' as u8, 'X' as u8];
                proof {
                    assert(r@ =~= self.spec_bytes());
                }
                r
            },
            Code::Forward => {
                let r = ['J' as u8, 'X' as u8, 'X' as u8, 'X' as u8, 'X' as u8, 'X' as u8];
                proof {
                    assert(r@ =~= self.spec_bytes());
                }
                r
            },
            Code::Strategy => {
                let r = ['K' as u8, 'X' as u8, 'X' as u8, 'X' as u8, 'X' as u8, 'X' as u8];
                proof {
                    assert(r@ =~= self.spec_bytes());
                }
                r
            },
            Code::Financing => {
                let r = ['L' as u8, 'X' as u8, 'X' as u8, 'X' as u8, 'X' as u8, 'X' as u8];
                proof {
                    assert(r@ =~= self.spec_bytes());
                }
                r
            },
            Code::Referential => {
                let r = ['T' as u8, 'X' as u8, 'X' as u8, 'X' as u8, 'X' as u8, 'X' as u8];
                proof {
                    assert(r@ =~= self.spec_bytes());
                }
                r
            },
            Code::Misc => {
                let r = ['M' as u8, 'X' as u8, 'X' as u8, 'X' as u8, 'X' as u8, 'X' as u8];
                proof {
                    assert(r@ =~= self.spec_bytes());
                }
                r
            },
        }
    }

    /// Whether this instance is an equity.
    pub fn is_equity(&self) -> (r: bool)
        ensures
            r == (self is Equity),
    {
        matches!(self, Code::Equity(_))
    }

    /// Whether this instance is a debt instrument.
    pub fn is_debt(&self) -> (r: bool)
        ensures
            r == (self is Debt),
    {
        matches!(self, Code::Debt(_))
    }

    /// Whether this instance is a collective investment vehicle.
    pub fn is_civ(&self) -> (r: bool)
        ensures
            r == (self is Civ),
    {
        matches!(self, Code::Civ(_))
    }

    /// Whether this instance is an entitlement/right.
    pub fn is_entitlement(&self) -> (r: bool)
        ensures
            r == (self is Right),
    {
        matches!(self, Code::Right(_))
    }

    /// Whether this instance is a listed option.
    pub fn is_listed_option(&self) -> (r: bool)
        ensures
            r == (self is ListedOption),
    {
        matches!(self, Code::ListedOption(_))
    }

    /// Whether this instance is a futures contract.
    pub fn is_future(&self) -> (r: bool)
        ensures
            r == (self is Future),
    {
        matches!(self, Code::Future(_))
    }

    /// Whether this instance is a swap.
    pub fn is_swap(&self) -> (r: bool)
        ensures
            r == (self is Swap),
    {
        matches!(self, Code::Swap(_))
    }

    /// Whether this instance is a non-listed or complex listed option.
    pub fn is_unlisted_option(&self) -> (r: bool)
        ensures
            r == (self is UnlistedOption),
    {
        matches!(self, Code::UnlistedOption)
    }

    /// Whether this instance is a spot contract.
    pub fn is_spot(&self) -> (r: bool)
        ensures
            r == (self is Spot),
    {
        matches!(self, Code::Spot)
    }

    /// Whether this instance is a forward contract.
    pub fn is_forward(&self) -> (r: bool)
        ensures
            r == (self is Forward),
    {
        matches!(self, Code::Forward)
    }

    /// Whether this instance is a derivative strategy.
    pub fn is_strategy(&self) -> (r: bool)
        ensures
            r == (self is Strategy),
    {
        matches!(self, Code::Strategy)
    }

    /// Whether this instance is a financing agreement.
    pub fn is_financing(&self) -> (r: bool)
        ensures
            r == (self is Financing),
    {
        matches!(self, Code::Financing)
    }

    /// Whether this instance is a referential instrument.
    pub fn is_referential(&self) -> (r: bool)
        ensures
            r == (self is Referential),
    {
        matches!(self, Code::Referential)
    }

    /// Whether this instance is an instrument that does not fit the other categories.
    pub fn is_misc(&self) -> (r: bool)
        ensures
            r == (self is Misc),
    {
        matches!(self, Code::Misc)
    }
}

/// Round-trip, decode after encode: every constructible code re-decodes
/// from its own six-byte encoding.
pub proof fn lemma_decode_encode(c: Code)
    ensures
        Code::spec_decode(c.spec_bytes()) == Ok::<Code, Error>(c),
{
    match c {
        Code::Equity(g) => {
            equity::lemma_decode_encode(g);
        },
        Code::Debt(g) => {
            debt::lemma_decode_encode(g);
        },
        Code::Civ(g) => {
            civ::lemma_decode_encode(g);
        },
        Code::Right(g) => {
            rights::lemma_decode_encode(g);
        },
        Code::ListedOption(g) => {
            options::lemma_decode_encode(g);
        },
        Code::Future(g) => {
            futures::lemma_decode_encode(g);
        },
        Code::Swap(g) => {
            swaps::lemma_decode_encode(g);
        },
        Code::UnlistedOption => {
        },
        Code::Spot => {
        },
        Code::Forward => {
        },
        Code::Strategy => {
        },
        Code::Financing => {
        },
        Code::Referential => {
        },
        Code::Misc => {
        },
    }
}

/// Round-trip, encode after decode: every six-byte input of a structured
/// category that decodes successfully is reproduced exactly by re-encoding
/// the decoded value. Single-tag categories do not validate bytes 1-5 and
/// re-encode to the `X` placeholder instead, so they are excluded here.
pub proof fn lemma_encode_decode(s: Seq<u8>, c: Code)
    requires
        Code::spec_decode(s) == Ok::<Code, Error>(c),
        Code::spec_structured_category(s[0]),
    ensures
        c.spec_bytes() == s,
{
    match c {
        Code::Equity(g) => {
            equity::lemma_encode_decode(s, g);
        },
        Code::Debt(g) => {
            debt::lemma_encode_decode(s, g);
        },
        Code::Civ(g) => {
            civ::lemma_encode_decode(s, g);
        },
        Code::Right(g) => {
            rights::lemma_encode_decode(s, g);
        },
        Code::ListedOption(g) => {
            options::lemma_encode_decode(s, g);
        },
        Code::Future(g) => {
            futures::lemma_encode_decode(s, g);
        },
        Code::Swap(g) => {
            swaps::lemma_encode_decode(s, g);
        },
        Code::UnlistedOption => {
        },
        Code::Spot => {
        },
        Code::Forward => {
        },
        Code::Strategy => {
        },
        Code::Financing => {
        },
        Code::Referential => {
        },
        Code::Misc => {
        },
    }
}

/// Length gate: an input of any length other than six bytes is rejected
/// with `InvalidLength`, whatever bytes it holds, before any positional
/// check is performed.
pub proof fn lemma_length_gate(s: Seq<u8>)
    requires
        s.len() != 6,
    ensures
        Code::spec_decode(s) == Err::<Code, Error>(Error::InvalidLength),
{
}

/// Fail-fast at byte 0: a six-byte input whose first byte is not a
/// category tag is rejected with exactly that byte, whatever the remaining
/// bytes hold.
pub proof fn lemma_invalid_category(s: Seq<u8>)
    requires
        s.len() == 6,
        !Code::spec_category_tag(s[0]),
    ensures
        Code::spec_decode(s) == Err::<Code, Error>(Error::InvalidCategory(s[0])),
{
}

/// Fail-fast at byte 1: a six-byte input with a legal category tag whose
/// second byte is not a group tag of that category is rejected with exactly
/// that byte, whatever bytes 2-5 hold.
pub proof fn lemma_invalid_group(s: Seq<u8>)
    requires
        s.len() == 6,
        Code::spec_category_tag(s[0]),
        !Code::spec_group_tag_of(s[0], s[1]),
    ensures
        Code::spec_decode(s) == Err::<Code, Error>(Error::InvalidGroup(s[1])),
{
    if s[0] == 'E' as u8 {
        equity::lemma_invalid_group(s);
    } else if s[0] == 'D' as u8 {
        debt::lemma_invalid_group(s);
    } else if s[0] == 'C' as u8 {
        civ::lemma_invalid_group(s);
    } else if s[0] == 'R' as u8 {
        rights::lemma_invalid_group(s);
    } else if s[0] == 'O' as u8 {
        options::lemma_invalid_group(s);
    } else if s[0] == 'F' as u8 {
        futures::lemma_invalid_group(s);
    } else if s[0] == 'S' as u8 {
        swaps::lemma_invalid_group(s);
    } else {
    }
}

/// Fail-fast at bytes 2-5: when the category and group tags are legal and
/// position `i` holds the first attribute byte outside its alphabet,
/// decoding reports exactly that position and byte, whatever the positions
/// after `i` hold.
pub proof fn lemma_first_invalid_attribute(s: Seq<u8>, i: int)
    requires
        s.len() == 6,
        Code::spec_category_tag(s[0]),
        Code::spec_group_tag_of(s[0], s[1]),
        2 <= i < 6,
        forall|j: int| 2 <= j < i ==> Code::spec_attr_ok_at(s, j),
        !Code::spec_attr_ok_at(s, i),
    ensures
        Code::spec_decode(s) == Err::<Code, Error>(Error::InvalidAttribute(i as usize, s[i])),
{
    if s[0] == 'E' as u8 {
        assert forall|j: int| 2 <= j < i implies equity::Group::spec_attr_ok(s, j) by {
            assert(Code::spec_attr_ok_at(s, j));
        }
        equity::lemma_first_invalid_attribute(s, i);
    } else if s[0] == 'D' as u8 {
        assert forall|j: int| 2 <= j < i implies debt::Debt::spec_attr_ok(s, j) by {
            assert(Code::spec_attr_ok_at(s, j));
        }
        debt::lemma_first_invalid_attribute(s, i);
    } else if s[0] == 'C' as u8 {
        assert forall|j: int| 2 <= j < i implies civ::Civ::spec_attr_ok(s, j) by {
            assert(Code::spec_attr_ok_at(s, j));
        }
        civ::lemma_first_invalid_attribute(s, i);
    } else if s[0] == 'R' as u8 {
        assert forall|j: int| 2 <= j < i implies rights::Right::spec_attr_ok(s, j) by {
            assert(Code::spec_attr_ok_at(s, j));
        }
        rights::lemma_first_invalid_attribute(s, i);
    } else if s[0] == 'O' as u8 {
        assert forall|j: int| 2 <= j < i implies options::Listed::spec_attr_ok(s, j) by {
            assert(Code::spec_attr_ok_at(s, j));
        }
        options::lemma_first_invalid_attribute(s, i);
    } else if s[0] == 'F' as u8 {
        assert forall|j: int| 2 <= j < i implies futures::Future::spec_attr_ok(s, j) by {
            assert(Code::spec_attr_ok_at(s, j));
        }
        futures::lemma_first_invalid_attribute(s, i);
    } else if s[0] == 'S' as u8 {
        assert forall|j: int| 2 <= j < i implies swaps::Swap::spec_attr_ok(s, j) by {
            assert(Code::spec_attr_ok_at(s, j));
        }
        swaps::lemma_first_invalid_attribute(s, i);
    } else {
    }
}

/// Undefined universality: substituting the byte `X` at any attribute
/// position of an input that decodes successfully leaves an input that
/// still decodes successfully, all other bytes held fixed; for structured
/// categories the resulting value re-encodes to the substituted input, so
/// it stores the one member that `X` encodes, `Undefined`, at position `i`.
pub proof fn lemma_undefined_universality(s: Seq<u8>, i: int)
    requires
        Code::spec_decode(s) is Ok,
        2 <= i < 6,
    ensures
        Code::spec_decode(s.update(i, 'X' as u8)) is Ok,
        Code::spec_structured_category(s[0]) ==> (match Code::spec_decode(
            s.update(i, 'X' as u8),
        ) {
            Ok(c) => c.spec_bytes() == s.update(i, 'X' as u8),
            Err(_) => false,
        }),
{
    let t = s.update(i, 'X' as u8);
    assert(t.len() == s.len());
    assert(t[0] == s[0]);
    if s[0] == 'E' as u8 {
        equity::lemma_undefined_universality(s, i);
    } else if s[0] == 'D' as u8 {
        debt::lemma_undefined_universality(s, i);
    } else if s[0] == 'C' as u8 {
        civ::lemma_undefined_universality(s, i);
    } else if s[0] == 'R' as u8 {
        rights::lemma_undefined_universality(s, i);
    } else if s[0] == 'O' as u8 {
        options::lemma_undefined_universality(s, i);
    } else if s[0] == 'F' as u8 {
        futures::lemma_undefined_universality(s, i);
    } else if s[0] == 'S' as u8 {
        swaps::lemma_undefined_universality(s, i);
    } else {
    }
    if Code::spec_structured_category(s[0]) {
        match Code::spec_decode(t) {
            Ok(c) => {
                lemma_encode_decode(t, c);
            },
            Err(_) => {
                assert(false);
            },
        }
    }
}

/// Closed alphabet: an input decodes successfully exactly when it is six
/// bytes long, byte 0 is a category tag, byte 1 is a group tag of that
/// category, and every attribute byte lies in the alphabet its position is
/// bound to under the selected schema.
pub proof fn lemma_decode_ok_iff_valid(s: Seq<u8>)
    ensures
        Code::spec_decode(s) is Ok <==> Code::spec_valid(s),
{
    if s.len() != 6 {
        return;
    }
    if s[0] == 'E' as u8 {
        equity::lemma_ok_iff(s);
        if Code::spec_valid(s) {
            assert forall|j: int| 2 <= j < 6 implies equity::Group::spec_attr_ok(s, j) by {
                assert(Code::spec_attr_ok_at(s, j));
            }
        }
        if Code::spec_decode(s) is Ok {
            assert forall|j: int| 2 <= j < 6 implies Code::spec_attr_ok_at(s, j) by {
                assert(equity::Group::spec_attr_ok(s, j));
            }
        }
    } else if s[0] == 'D' as u8 {
        debt::lemma_ok_iff(s);
        if Code::spec_valid(s) {
            assert forall|j: int| 2 <= j < 6 implies debt::Debt::spec_attr_ok(s, j) by {
                assert(Code::spec_attr_ok_at(s, j));
            }
        }
        if Code::spec_decode(s) is Ok {
            assert forall|j: int| 2 <= j < 6 implies Code::spec_attr_ok_at(s, j) by {
                assert(debt::Debt::spec_attr_ok(s, j));
            }
        }
    } else if s[0] == 'C' as u8 {
        civ::lemma_ok_iff(s);
        if Code::spec_valid(s) {
            assert forall|j: int| 2 <= j < 6 implies civ::Civ::spec_attr_ok(s, j) by {
                assert(Code::spec_attr_ok_at(s, j));
            }
        }
        if Code::spec_decode(s) is Ok {
            assert forall|j: int| 2 <= j < 6 implies Code::spec_attr_ok_at(s, j) by {
                assert(civ::Civ::spec_attr_ok(s, j));
            }
        }
    } else if s[0] == 'R' as u8 {
        rights::lemma_ok_iff(s);
        if Code::spec_valid(s) {
            assert forall|j: int| 2 <= j < 6 implies rights::Right::spec_attr_ok(s, j) by {
                assert(Code::spec_attr_ok_at(s, j));
            }
        }
        if Code::spec_decode(s) is Ok {
            assert forall|j: int| 2 <= j < 6 implies Code::spec_attr_ok_at(s, j) by {
                assert(rights::Right::spec_attr_ok(s, j));
            }
        }
    } else if s[0] == 'O' as u8 {
        options::lemma_ok_iff(s);
        if Code::spec_valid(s) {
            assert forall|j: int| 2 <= j < 6 implies options::Listed::spec_attr_ok(s, j) by {
                assert(Code::spec_attr_ok_at(s, j));
            }
        }
        if Code::spec_decode(s) is Ok {
            assert forall|j: int| 2 <= j < 6 implies Code::spec_attr_ok_at(s, j) by {
                assert(options::Listed::spec_attr_ok(s, j));
            }
        }
    } else if s[0] == 'F' as u8 {
        futures::lemma_ok_iff(s);
        if Code::spec_valid(s) {
            assert forall|j: int| 2 <= j < 6 implies futures::Future::spec_attr_ok(s, j) by {
                assert(Code::spec_attr_ok_at(s, j));
            }
        }
        if Code::spec_decode(s) is Ok {
            assert forall|j: int| 2 <= j < 6 implies Code::spec_attr_ok_at(s, j) by {
                assert(futures::Future::spec_attr_ok(s, j));
            }
        }
    } else if s[0] == 'S' as u8 {
        swaps::lemma_ok_iff(s);
        if Code::spec_valid(s) {
            assert forall|j: int| 2 <= j < 6 implies swaps::Swap::spec_attr_ok(s, j) by {
                assert(Code::spec_attr_ok_at(s, j));
            }
        }
        if Code::spec_decode(s) is Ok {
            assert forall|j: int| 2 <= j < 6 implies Code::spec_attr_ok_at(s, j) by {
                assert(swaps::Swap::spec_attr_ok(s, j));
            }
        }
    } else if Code::spec_category_tag(s[0]) {
        assert forall|j: int| 2 <= j < 6 implies Code::spec_attr_ok_at(s, j) by {
        }
    } else {
    }
}

} // verus!
