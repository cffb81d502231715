//! The encryption technique.

use crate::error::Error;
use crate::fhe_core::text::{quoted, same_text};
use std::str::FromStr;
use vstd::prelude::*;
use vstd::std_specs::convert::{FromSpecImpl, TryFromSpecImpl};

verus! {

/// Encryption technique used in FHE operations.
#[derive(Debug, Clone, Copy, PartialEq, Eq, Structural)]
pub enum EncryptionTechnique {
    /// Standard encryption.
    Standard,
    /// Extended encryption.
    Extended,
}

impl EncryptionTechnique {
    /// The numeric code of a technique, as it goes on the wire.
    pub open spec fn code(self) -> u8 {
        match self {
            EncryptionTechnique::Standard => 0,
            EncryptionTechnique::Extended => 1,
        }
    }

    /// The name of a technique, as it is displayed.
    pub open spec fn name(self) -> Seq<char> {
        match self {
            EncryptionTechnique::Standard => "Standard"@,
            EncryptionTechnique::Extended => "Extended"@,
        }
    }

    /// The technique that a number is the code of; the error that holds the
    /// number if it is the code of none.
    pub open spec fn from_code(value: u8) -> Result<Self, Error> {
        if value == 0 {
            Ok(EncryptionTechnique::Standard)
        } else if value == 1 {
            Ok(EncryptionTechnique::Extended)
        } else {
            Err(Error::InvalidEncryptionTechnique(value as usize))
        }
    }

    /// The technique that an integer of any width is the code of; the error
    /// that holds the integer, cut to the width of `usize`, if it is the code
    /// of none.
    pub open spec fn from_int(value: i128) -> Result<Self, Error> {
        if 0 <= value <= 255 {
            Self::from_code(value as u8)
        } else {
            Err(Error::InvalidEncryptionTechnique(value as usize))
        }
    }

    /// The technique that a text names, if any.
    pub open spec fn named(text: Seq<char>) -> Option<Self> {
        if text == "Standard"@ {
            Some(EncryptionTechnique::Standard)
        } else if text == "Extended"@ {
            Some(EncryptionTechnique::Extended)
        } else {
            None
        }
    }

    /// The message of the error for a text that names no technique.
    pub open spec fn unknown_name(text: Seq<char>) -> Seq<char> {
        "invalid string when parsing EncryptionTechnique: '"@ + text + "'"@
    }

    /// The name of the technique.
    pub fn to_string(&self) -> (text: String)
        ensures
            text@ == self.name(),
    {
        match self {
            EncryptionTechnique::Standard => "Standard".to_owned(),
            EncryptionTechnique::Extended => "Extended".to_owned(),
        }
    }

    /// The technique whose code is `value`, for a code held in an integer of
    /// any width. A value that is no code comes back in the error, cut to the
    /// width of `usize`.
    pub fn try_from_int(value: i128) -> (r: Result<Self, Error>)
        ensures
            r == Self::from_int(value),
    {
        if 0 <= value && value <= 255 {
            EncryptionTechnique::try_from(value as u8)
        } else {
            Err(Error::InvalidEncryptionTechnique(#[verifier::truncate] (value as usize)))
        }
    }

    /// The code of every technique converts back to the technique.
    pub proof fn lemma_code_round_trip(value: Self)
        ensures
            Self::from_code(value.code()) == Ok::<Self, Error>(value),
            Self::from_int(value.code() as i128) == Ok::<Self, Error>(value),
    {
    }

    /// The name of every technique parses back to the technique.
    pub proof fn lemma_name_round_trip(value: Self)
        ensures
            Self::named(value.name()) == Some(value),
    {
        Self::lemma_names_differ();
        assert(EncryptionTechnique::Standard.name() == "Standard"@);
        assert(EncryptionTechnique::Extended.name() == "Extended"@);
    }

    /// A number converts to a technique only if it is the code of that
    /// technique; any other number is rejected with an error that holds it.
    pub proof fn lemma_only_codes_convert(code: u8)
        ensures
            match Self::from_code(code) {
                Ok(value) => value.code() == code,
                Err(e) => {
                    &&& e == Error::InvalidEncryptionTechnique(code as usize)
                    &&& forall|value: Self| #[trigger] value.code() != code
                },
            },
    {
    }

    /// A text parses to a technique only if it is the name of that technique;
    /// any other text is rejected.
    pub proof fn lemma_only_names_parse(text: Seq<char>)
        ensures
            match Self::named(text) {
                Some(value) => value.name() == text,
                None => forall|value: Self| #[trigger] value.name() != text,
            },
    {
    }

    /// No two techniques have the same name.
    proof fn lemma_names_differ()
        ensures
            forall|x: Self, y: Self| #[trigger] x.name() == #[trigger] y.name() ==> x == y,
    {
        reveal_strlit("Standard");
        reveal_strlit("Extended");
        assert forall|x: Self, y: Self| #[trigger] x.name() == #[trigger] y.name() implies x
            == y by {
            // names of one length differ in one of these places
            assert(x.name().len() == y.name().len());
            assert(x.name()[0] == y.name()[0]);
        }
    }
}

impl TryFrom<u8> for EncryptionTechnique {
    type Error = Error;

    /// The technique whose code is `value`; an error that holds `value` if it
    /// is the code of no technique.
    fn try_from(value: u8) -> (r: Result<Self, Error>)
        ensures
            r == Self::from_code(value),
    {
        match value {
            0 => Ok(EncryptionTechnique::Standard),
            1 => Ok(EncryptionTechnique::Extended),
            _ => Err(Error::InvalidEncryptionTechnique(value as usize)),
        }
    }
}

impl TryFromSpecImpl<u8> for EncryptionTechnique {
    open spec fn obeys_try_from_spec() -> bool {
        true
    }

    open spec fn try_from_spec(value: u8) -> Result<Self, Error> {
        Self::from_code(value)
    }
}

impl From<EncryptionTechnique> for u8 {
    /// The numeric code of the technique.
    fn from(value: EncryptionTechnique) -> (code: u8)
        ensures
            code == value.code(),
    {
        match value {
            EncryptionTechnique::Standard => 0,
            EncryptionTechnique::Extended => 1,
        }
    }
}

impl FromSpecImpl<EncryptionTechnique> for u8 {
    open spec fn obeys_from_spec() -> bool {
        true
    }

    open spec fn from_spec(value: EncryptionTechnique) -> u8 {
        value.code()
    }
}

impl FromStr for EncryptionTechnique {
    type Err = Error;

    /// The technique that `s` names; an error whose message quotes `s` if it
    /// names none.
    fn from_str(s: &str) -> (r: Result<Self, Error>)
        ensures
            match Self::named(s@) {
                Some(value) => r == Ok::<Self, Error>(value),
                None => {
                    &&& r matches Err(Error::ParseError(message))
                    &&& message@ == Self::unknown_name(s@)
                },
            },
    {
        if same_text(s, "Standard") {
            Ok(EncryptionTechnique::Standard)
        } else if same_text(s, "Extended") {
            Ok(EncryptionTechnique::Extended)
        } else {
            Err(
                Error::ParseError(
                    quoted(
                        "invalid string when parsing EncryptionTechnique: '",
                        s,
                        "'",
                    ),
                ),
            )
        }
    }
}

impl Default for EncryptionTechnique {
    /// `Standard`.
    fn default() -> (value: Self)
        ensures
            value == EncryptionTechnique::Standard,
    {
        EncryptionTechnique::Standard
    }
}

// The code in the wider integer types.
impl From<EncryptionTechnique> for i8 {
    /// The numeric code of the technique, as `i8`.
    fn from(value: EncryptionTechnique) -> (code: i8)
        ensures
            code == value.code(),
    {
        u8::from(value) as i8
    }
}

impl FromSpecImpl<EncryptionTechnique> for i8 {
    open spec fn obeys_from_spec() -> bool {
        true
    }

    open spec fn from_spec(value: EncryptionTechnique) -> i8 {
        value.code() as i8
    }
}

impl From<EncryptionTechnique> for u16 {
    /// The numeric code of the technique, as `u16`.
    fn from(value: EncryptionTechnique) -> (code: u16)
        ensures
            code == value.code(),
    {
        u8::from(value) as u16
    }
}

impl FromSpecImpl<EncryptionTechnique> for u16 {
    open spec fn obeys_from_spec() -> bool {
        true
    }

    open spec fn from_spec(value: EncryptionTechnique) -> u16 {
        value.code() as u16
    }
}

impl From<EncryptionTechnique> for i16 {
    /// The numeric code of the technique, as `i16`.
    fn from(value: EncryptionTechnique) -> (code: i16)
        ensures
            code == value.code(),
    {
        u8::from(value) as i16
    }
}

impl FromSpecImpl<EncryptionTechnique> for i16 {
    open spec fn obeys_from_spec() -> bool {
        true
    }

    open spec fn from_spec(value: EncryptionTechnique) -> i16 {
        value.code() as i16
    }
}

impl From<EncryptionTechnique> for u32 {
    /// The numeric code of the technique, as `u32`.
    fn from(value: EncryptionTechnique) -> (code: u32)
        ensures
            code == value.code(),
    {
        u8::from(value) as u32
    }
}

impl FromSpecImpl<EncryptionTechnique> for u32 {
    open spec fn obeys_from_spec() -> bool {
        true
    }

    open spec fn from_spec(value: EncryptionTechnique) -> u32 {
        value.code() as u32
    }
}

impl From<EncryptionTechnique> for i32 {
    /// The numeric code of the technique, as `i32`.
    fn from(value: EncryptionTechnique) -> (code: i32)
        ensures
            code == value.code(),
    {
        u8::from(value) as i32
    }
}

impl FromSpecImpl<EncryptionTechnique> for i32 {
    open spec fn obeys_from_spec() -> bool {
        true
    }

    open spec fn from_spec(value: EncryptionTechnique) -> i32 {
        value.code() as i32
    }
}

impl From<EncryptionTechnique> for u64 {
    /// The numeric code of the technique, as `u64`.
    fn from(value: EncryptionTechnique) -> (code: u64)
        ensures
            code == value.code(),
    {
        u8::from(value) as u64
    }
}

impl FromSpecImpl<EncryptionTechnique> for u64 {
    open spec fn obeys_from_spec() -> bool {
        true
    }

    open spec fn from_spec(value: EncryptionTechnique) -> u64 {
        value.code() as u64
    }
}

impl From<EncryptionTechnique> for i64 {
    /// The numeric code of the technique, as `i64`.
    fn from(value: EncryptionTechnique) -> (code: i64)
        ensures
            code == value.code(),
    {
        u8::from(value) as i64
    }
}

impl FromSpecImpl<EncryptionTechnique> for i64 {
    open spec fn obeys_from_spec() -> bool {
        true
    }

    open spec fn from_spec(value: EncryptionTechnique) -> i64 {
        value.code() as i64
    }
}

impl From<EncryptionTechnique> for usize {
    /// The numeric code of the technique, as `usize`.
    fn from(value: EncryptionTechnique) -> (code: usize)
        ensures
            code == value.code(),
    {
        u8::from(value) as usize
    }
}

impl FromSpecImpl<EncryptionTechnique> for usize {
    open spec fn obeys_from_spec() -> bool {
        true
    }

    open spec fn from_spec(value: EncryptionTechnique) -> usize {
        value.code() as usize
    }
}

impl From<EncryptionTechnique> for isize {
    /// The numeric code of the technique, as `isize`.
    fn from(value: EncryptionTechnique) -> (code: isize)
        ensures
            code == value.code(),
    {
        u8::from(value) as isize
    }
}

impl FromSpecImpl<EncryptionTechnique> for isize {
    open spec fn obeys_from_spec() -> bool {
        true
    }

    open spec fn from_spec(value: EncryptionTechnique) -> isize {
        value.code() as isize
    }
}

// The code out of the wider integer types.
impl TryFrom<i8> for EncryptionTechnique {
    type Error = Error;

    /// The technique whose code is `value`; an error that holds `value` as a
    /// `usize` if it is the code of no technique.
    fn try_from(value: i8) -> (r: Result<Self, Error>)
        ensures
            r == Self::from_int(value as i128),
    {
        EncryptionTechnique::try_from_int(value as i128)
    }
}

impl TryFromSpecImpl<i8> for EncryptionTechnique {
    open spec fn obeys_try_from_spec() -> bool {
        true
    }

    open spec fn try_from_spec(value: i8) -> Result<Self, Error> {
        Self::from_int(value as i128)
    }
}

impl TryFrom<u16> for EncryptionTechnique {
    type Error = Error;

    /// The technique whose code is `value`; an error that holds `value` as a
    /// `usize` if it is the code of no technique.
    fn try_from(value: u16) -> (r: Result<Self, Error>)
        ensures
            r == Self::from_int(value as i128),
    {
        EncryptionTechnique::try_from_int(value as i128)
    }
}

impl TryFromSpecImpl<u16> for EncryptionTechnique {
    open spec fn obeys_try_from_spec() -> bool {
        true
    }

    open spec fn try_from_spec(value: u16) -> Result<Self, Error> {
        Self::from_int(value as i128)
    }
}

impl TryFrom<i16> for EncryptionTechnique {
    type Error = Error;

    /// The technique whose code is `value`; an error that holds `value` as a
    /// `usize` if it is the code of no technique.
    fn try_from(value: i16) -> (r: Result<Self, Error>)
        ensures
            r == Self::from_int(value as i128),
    {
        EncryptionTechnique::try_from_int(value as i128)
    }
}

impl TryFromSpecImpl<i16> for EncryptionTechnique {
    open spec fn obeys_try_from_spec() -> bool {
        true
    }

    open spec fn try_from_spec(value: i16) -> Result<Self, Error> {
        Self::from_int(value as i128)
    }
}

impl TryFrom<u32> for EncryptionTechnique {
    type Error = Error;

    /// The technique whose code is `value`; an error that holds `value` as a
    /// `usize` if it is the code of no technique.
    fn try_from(value: u32) -> (r: Result<Self, Error>)
        ensures
            r == Self::from_int(value as i128),
    {
        EncryptionTechnique::try_from_int(value as i128)
    }
}

impl TryFromSpecImpl<u32> for EncryptionTechnique {
    open spec fn obeys_try_from_spec() -> bool {
        true
    }

    open spec fn try_from_spec(value: u32) -> Result<Self, Error> {
        Self::from_int(value as i128)
    }
}

impl TryFrom<i32> for EncryptionTechnique {
    type Error = Error;

    /// The technique whose code is `value`; an error that holds `value` as a
    /// `usize` if it is the code of no technique.
    fn try_from(value: i32) -> (r: Result<Self, Error>)
        ensures
            r == Self::from_int(value as i128),
    {
        EncryptionTechnique::try_from_int(value as i128)
    }
}

impl TryFromSpecImpl<i32> for EncryptionTechnique {
    open spec fn obeys_try_from_spec() -> bool {
        true
    }

    open spec fn try_from_spec(value: i32) -> Result<Self, Error> {
        Self::from_int(value as i128)
    }
}

impl TryFrom<u64> for EncryptionTechnique {
    type Error = Error;

    /// The technique whose code is `value`; an error that holds `value` as a
    /// `usize` if it is the code of no technique.
    fn try_from(value: u64) -> (r: Result<Self, Error>)
        ensures
            r == Self::from_int(value as i128),
    {
        EncryptionTechnique::try_from_int(value as i128)
    }
}

impl TryFromSpecImpl<u64> for EncryptionTechnique {
    open spec fn obeys_try_from_spec() -> bool {
        true
    }

    open spec fn try_from_spec(value: u64) -> Result<Self, Error> {
        Self::from_int(value as i128)
    }
}

impl TryFrom<i64> for EncryptionTechnique {
    type Error = Error;

    /// The technique whose code is `value`; an error that holds `value` as a
    /// `usize` if it is the code of no technique.
    fn try_from(value: i64) -> (r: Result<Self, Error>)
        ensures
            r == Self::from_int(value as i128),
    {
        EncryptionTechnique::try_from_int(value as i128)
    }
}

impl TryFromSpecImpl<i64> for EncryptionTechnique {
    open spec fn obeys_try_from_spec() -> bool {
        true
    }

    open spec fn try_from_spec(value: i64) -> Result<Self, Error> {
        Self::from_int(value as i128)
    }
}

impl TryFrom<usize> for EncryptionTechnique {
    type Error = Error;

    /// The technique whose code is `value`; an error that holds `value` as a
    /// `usize` if it is the code of no technique.
    fn try_from(value: usize) -> (r: Result<Self, Error>)
        ensures
            r == Self::from_int(value as i128),
    {
        EncryptionTechnique::try_from_int(value as i128)
    }
}

impl TryFromSpecImpl<usize> for EncryptionTechnique {
    open spec fn obeys_try_from_spec() -> bool {
        true
    }

    open spec fn try_from_spec(value: usize) -> Result<Self, Error> {
        Self::from_int(value as i128)
    }
}

impl TryFrom<isize> for EncryptionTechnique {
    type Error = Error;

    /// The technique whose code is `value`; an error that holds `value` as a
    /// `usize` if it is the code of no technique.
    fn try_from(value: isize) -> (r: Result<Self, Error>)
        ensures
            r == Self::from_int(value as i128),
    {
        EncryptionTechnique::try_from_int(value as i128)
    }
}

impl TryFromSpecImpl<isize> for EncryptionTechnique {
    open spec fn obeys_try_from_spec() -> bool {
        true
    }

    open spec fn try_from_spec(value: isize) -> Result<Self, Error> {
        Self::from_int(value as i128)
    }
}

} // verus!
