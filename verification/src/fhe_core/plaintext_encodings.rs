//! The plaintext encodings.

use crate::error::Error;
use crate::fhe_core::text::{quoted, same_text};
use std::str::FromStr;
use vstd::prelude::*;
use vstd::std_specs::convert::{FromSpecImpl, TryFromSpecImpl};

verus! {

/// The Plaintext Encodings.
#[derive(Debug, Clone, Copy, PartialEq, Eq, Structural)]
pub enum PlaintextEncodings {
    /// No encoding: the value before one is chosen.
    Invalid,
    /// Packed into the coefficients.
    CoefPacked,
    /// Packed into the slots.
    Packed,
    /// A string.
    String,
    /// Packed for CKKS.
    CkksPacked,
}

impl PlaintextEncodings {
    /// The numeric code of an encoding, as it goes on the wire.
    pub open spec fn code(self) -> u8 {
        match self {
            PlaintextEncodings::Invalid => 0,
            PlaintextEncodings::CoefPacked => 1,
            PlaintextEncodings::Packed => 2,
            PlaintextEncodings::String => 3,
            PlaintextEncodings::CkksPacked => 4,
        }
    }

    /// The name of an encoding, as it is displayed.
    pub open spec fn name(self) -> Seq<char> {
        match self {
            PlaintextEncodings::Invalid => "Invalid"@,
            PlaintextEncodings::CoefPacked => "CoefPacked"@,
            PlaintextEncodings::Packed => "Packed"@,
            PlaintextEncodings::String => "String"@,
            PlaintextEncodings::CkksPacked => "CkksPacked"@,
        }
    }

    /// The encoding that a number is the code of; the error that holds the
    /// number if it is the code of none.
    pub open spec fn from_code(value: u8) -> Result<Self, Error> {
        if value == 0 {
            Ok(PlaintextEncodings::Invalid)
        } else if value == 1 {
            Ok(PlaintextEncodings::CoefPacked)
        } else if value == 2 {
            Ok(PlaintextEncodings::Packed)
        } else if value == 3 {
            Ok(PlaintextEncodings::String)
        } else if value == 4 {
            Ok(PlaintextEncodings::CkksPacked)
        } else {
            Err(Error::InvalidPlaintextEncoding(value as usize))
        }
    }

    /// The encoding that an integer of any width is the code of; the error
    /// that holds the integer, cut to the width of `usize`, if it is the code
    /// of none.
    pub open spec fn from_int(value: i128) -> Result<Self, Error> {
        if 0 <= value <= 255 {
            Self::from_code(value as u8)
        } else {
            Err(Error::InvalidPlaintextEncoding(value as usize))
        }
    }

    /// The encoding that a text names, if any.
    pub open spec fn named(text: Seq<char>) -> Option<Self> {
        if text == "Invalid"@ {
            Some(PlaintextEncodings::Invalid)
        } else if text == "CoefPacked"@ {
            Some(PlaintextEncodings::CoefPacked)
        } else if text == "Packed"@ {
            Some(PlaintextEncodings::Packed)
        } else if text == "String"@ {
            Some(PlaintextEncodings::String)
        } else if text == "CkksPacked"@ {
            Some(PlaintextEncodings::CkksPacked)
        } else {
            None
        }
    }

    /// The message of the error for a text that names no encoding.
    pub open spec fn unknown_name(text: Seq<char>) -> Seq<char> {
        "invalid string when parsing PlaintextEncodings: '"@ + text + "'"@
    }

    /// The name of the encoding.
    pub fn to_string(&self) -> (text: String)
        ensures
            text@ == self.name(),
    {
        match self {
            PlaintextEncodings::Invalid => "Invalid".to_owned(),
            PlaintextEncodings::CoefPacked => "CoefPacked".to_owned(),
            PlaintextEncodings::Packed => "Packed".to_owned(),
            PlaintextEncodings::String => "String".to_owned(),
            PlaintextEncodings::CkksPacked => "CkksPacked".to_owned(),
        }
    }

    /// The encoding whose code is `value`, for a code held in an integer of
    /// any width. A value that is no code comes back in the error, cut to the
    /// width of `usize`.
    pub fn try_from_int(value: i128) -> (r: Result<Self, Error>)
        ensures
            r == Self::from_int(value),
    {
        if 0 <= value && value <= 255 {
            PlaintextEncodings::try_from(value as u8)
        } else {
            Err(Error::InvalidPlaintextEncoding(#[verifier::truncate] (value as usize)))
        }
    }

    /// The code of every encoding converts back to the encoding.
    pub proof fn lemma_code_round_trip(value: Self)
        ensures
            Self::from_code(value.code()) == Ok::<Self, Error>(value),
            Self::from_int(value.code() as i128) == Ok::<Self, Error>(value),
    {
    }

    /// The name of every encoding parses back to the encoding.
    pub proof fn lemma_name_round_trip(value: Self)
        ensures
            Self::named(value.name()) == Some(value),
    {
        Self::lemma_names_differ();
        assert(PlaintextEncodings::Invalid.name() == "Invalid"@);
        assert(PlaintextEncodings::CoefPacked.name() == "CoefPacked"@);
        assert(PlaintextEncodings::Packed.name() == "Packed"@);
        assert(PlaintextEncodings::String.name() == "String"@);
        assert(PlaintextEncodings::CkksPacked.name() == "CkksPacked"@);
    }

    /// A number converts to an encoding only if it is the code of that
    /// encoding; any other number is rejected with an error that holds it.
    pub proof fn lemma_only_codes_convert(code: u8)
        ensures
            match Self::from_code(code) {
                Ok(value) => value.code() == code,
                Err(e) => {
                    &&& e == Error::InvalidPlaintextEncoding(code as usize)
                    &&& forall|value: Self| #[trigger] value.code() != code
                },
            },
    {
    }

    /// A text parses to an encoding only if it is the name of that encoding;
    /// any other text is rejected.
    pub proof fn lemma_only_names_parse(text: Seq<char>)
        ensures
            match Self::named(text) {
                Some(value) => value.name() == text,
                None => forall|value: Self| #[trigger] value.name() != text,
            },
    {
    }

    /// No two encodings have the same name.
    proof fn lemma_names_differ()
        ensures
            forall|x: Self, y: Self| #[trigger] x.name() == #[trigger] y.name() ==> x == y,
    {
        reveal_strlit("Invalid");
        reveal_strlit("CoefPacked");
        reveal_strlit("Packed");
        reveal_strlit("String");
        reveal_strlit("CkksPacked");
        assert forall|x: Self, y: Self| #[trigger] x.name() == #[trigger] y.name() implies x
            == y by {
            // names of one length differ in one of these places
            assert(x.name().len() == y.name().len());
            assert(x.name()[0] == y.name()[0]);
            assert(x.name()[1] == y.name()[1]);
        }
    }
}

impl TryFrom<u8> for PlaintextEncodings {
    type Error = Error;

    /// The encoding whose code is `value`; an error that holds `value` if it
    /// is the code of no encoding.
    fn try_from(value: u8) -> (r: Result<Self, Error>)
        ensures
            r == Self::from_code(value),
    {
        match value {
            0 => Ok(PlaintextEncodings::Invalid),
            1 => Ok(PlaintextEncodings::CoefPacked),
            2 => Ok(PlaintextEncodings::Packed),
            3 => Ok(PlaintextEncodings::String),
            4 => Ok(PlaintextEncodings::CkksPacked),
            _ => Err(Error::InvalidPlaintextEncoding(value as usize)),
        }
    }
}

impl TryFromSpecImpl<u8> for PlaintextEncodings {
    open spec fn obeys_try_from_spec() -> bool {
        true
    }

    open spec fn try_from_spec(value: u8) -> Result<Self, Error> {
        Self::from_code(value)
    }
}

impl From<PlaintextEncodings> for u8 {
    /// The numeric code of the encoding.
    fn from(value: PlaintextEncodings) -> (code: u8)
        ensures
            code == value.code(),
    {
        match value {
            PlaintextEncodings::Invalid => 0,
            PlaintextEncodings::CoefPacked => 1,
            PlaintextEncodings::Packed => 2,
            PlaintextEncodings::String => 3,
            PlaintextEncodings::CkksPacked => 4,
        }
    }
}

impl FromSpecImpl<PlaintextEncodings> for u8 {
    open spec fn obeys_from_spec() -> bool {
        true
    }

    open spec fn from_spec(value: PlaintextEncodings) -> u8 {
        value.code()
    }
}

impl FromStr for PlaintextEncodings {
    type Err = Error;

    /// The encoding that `s` names; an error whose message quotes `s` if it
    /// names none.
    fn from_str(s: &str) -> (r: Result<Self, Error>)
        ensures
            match Self::named(s@) {
                Some(value) => r == Ok::<Self, Error>(value),
                None => {
                    &&& r matches Err(Error::ParseError(message))
                    &&& message@ == Self::unknown_name(s@)
                },
            },
    {
        if same_text(s, "Invalid") {
            Ok(PlaintextEncodings::Invalid)
        } else if same_text(s, "CoefPacked") {
            Ok(PlaintextEncodings::CoefPacked)
        } else if same_text(s, "Packed") {
            Ok(PlaintextEncodings::Packed)
        } else if same_text(s, "String") {
            Ok(PlaintextEncodings::String)
        } else if same_text(s, "CkksPacked") {
            Ok(PlaintextEncodings::CkksPacked)
        } else {
            Err(
                Error::ParseError(
                    quoted(
                        "invalid string when parsing PlaintextEncodings: '",
                        s,
                        "'",
                    ),
                ),
            )
        }
    }
}

impl Default for PlaintextEncodings {
    /// `Invalid`.
    fn default() -> (value: Self)
        ensures
            value == PlaintextEncodings::Invalid,
    {
        PlaintextEncodings::Invalid
    }
}

// The code in the wider integer types.
impl From<PlaintextEncodings> for i8 {
    /// The numeric code of the encoding, as `i8`.
    fn from(value: PlaintextEncodings) -> (code: i8)
        ensures
            code == value.code(),
    {
        u8::from(value) as i8
    }
}

impl FromSpecImpl<PlaintextEncodings> for i8 {
    open spec fn obeys_from_spec() -> bool {
        true
    }

    open spec fn from_spec(value: PlaintextEncodings) -> i8 {
        value.code() as i8
    }
}

impl From<PlaintextEncodings> for u16 {
    /// The numeric code of the encoding, as `u16`.
    fn from(value: PlaintextEncodings) -> (code: u16)
        ensures
            code == value.code(),
    {
        u8::from(value) as u16
    }
}

impl FromSpecImpl<PlaintextEncodings> for u16 {
    open spec fn obeys_from_spec() -> bool {
        true
    }

    open spec fn from_spec(value: PlaintextEncodings) -> u16 {
        value.code() as u16
    }
}

impl From<PlaintextEncodings> for i16 {
    /// The numeric code of the encoding, as `i16`.
    fn from(value: PlaintextEncodings) -> (code: i16)
        ensures
            code == value.code(),
    {
        u8::from(value) as i16
    }
}

impl FromSpecImpl<PlaintextEncodings> for i16 {
    open spec fn obeys_from_spec() -> bool {
        true
    }

    open spec fn from_spec(value: PlaintextEncodings) -> i16 {
        value.code() as i16
    }
}

impl From<PlaintextEncodings> for u32 {
    /// The numeric code of the encoding, as `u32`.
    fn from(value: PlaintextEncodings) -> (code: u32)
        ensures
            code == value.code(),
    {
        u8::from(value) as u32
    }
}

impl FromSpecImpl<PlaintextEncodings> for u32 {
    open spec fn obeys_from_spec() -> bool {
        true
    }

    open spec fn from_spec(value: PlaintextEncodings) -> u32 {
        value.code() as u32
    }
}

impl From<PlaintextEncodings> for i32 {
    /// The numeric code of the encoding, as `i32`.
    fn from(value: PlaintextEncodings) -> (code: i32)
        ensures
            code == value.code(),
    {
        u8::from(value) as i32
    }
}

impl FromSpecImpl<PlaintextEncodings> for i32 {
    open spec fn obeys_from_spec() -> bool {
        true
    }

    open spec fn from_spec(value: PlaintextEncodings) -> i32 {
        value.code() as i32
    }
}

impl From<PlaintextEncodings> for u64 {
    /// The numeric code of the encoding, as `u64`.
    fn from(value: PlaintextEncodings) -> (code: u64)
        ensures
            code == value.code(),
    {
        u8::from(value) as u64
    }
}

impl FromSpecImpl<PlaintextEncodings> for u64 {
    open spec fn obeys_from_spec() -> bool {
        true
    }

    open spec fn from_spec(value: PlaintextEncodings) -> u64 {
        value.code() as u64
    }
}

impl From<PlaintextEncodings> for i64 {
    /// The numeric code of the encoding, as `i64`.
    fn from(value: PlaintextEncodings) -> (code: i64)
        ensures
            code == value.code(),
    {
        u8::from(value) as i64
    }
}

impl FromSpecImpl<PlaintextEncodings> for i64 {
    open spec fn obeys_from_spec() -> bool {
        true
    }

    open spec fn from_spec(value: PlaintextEncodings) -> i64 {
        value.code() as i64
    }
}

impl From<PlaintextEncodings> for usize {
    /// The numeric code of the encoding, as `usize`.
    fn from(value: PlaintextEncodings) -> (code: usize)
        ensures
            code == value.code(),
    {
        u8::from(value) as usize
    }
}

impl FromSpecImpl<PlaintextEncodings> for usize {
    open spec fn obeys_from_spec() -> bool {
        true
    }

    open spec fn from_spec(value: PlaintextEncodings) -> usize {
        value.code() as usize
    }
}

impl From<PlaintextEncodings> for isize {
    /// The numeric code of the encoding, as `isize`.
    fn from(value: PlaintextEncodings) -> (code: isize)
        ensures
            code == value.code(),
    {
        u8::from(value) as isize
    }
}

impl FromSpecImpl<PlaintextEncodings> for isize {
    open spec fn obeys_from_spec() -> bool {
        true
    }

    open spec fn from_spec(value: PlaintextEncodings) -> isize {
        value.code() as isize
    }
}

// The code out of the wider integer types.
impl TryFrom<i8> for PlaintextEncodings {
    type Error = Error;

    /// The encoding whose code is `value`; an error that holds `value` as a
    /// `usize` if it is the code of no encoding.
    fn try_from(value: i8) -> (r: Result<Self, Error>)
        ensures
            r == Self::from_int(value as i128),
    {
        PlaintextEncodings::try_from_int(value as i128)
    }
}

impl TryFromSpecImpl<i8> for PlaintextEncodings {
    open spec fn obeys_try_from_spec() -> bool {
        true
    }

    open spec fn try_from_spec(value: i8) -> Result<Self, Error> {
        Self::from_int(value as i128)
    }
}

impl TryFrom<u16> for PlaintextEncodings {
    type Error = Error;

    /// The encoding whose code is `value`; an error that holds `value` as a
    /// `usize` if it is the code of no encoding.
    fn try_from(value: u16) -> (r: Result<Self, Error>)
        ensures
            r == Self::from_int(value as i128),
    {
        PlaintextEncodings::try_from_int(value as i128)
    }
}

impl TryFromSpecImpl<u16> for PlaintextEncodings {
    open spec fn obeys_try_from_spec() -> bool {
        true
    }

    open spec fn try_from_spec(value: u16) -> Result<Self, Error> {
        Self::from_int(value as i128)
    }
}

impl TryFrom<i16> for PlaintextEncodings {
    type Error = Error;

    /// The encoding whose code is `value`; an error that holds `value` as a
    /// `usize` if it is the code of no encoding.
    fn try_from(value: i16) -> (r: Result<Self, Error>)
        ensures
            r == Self::from_int(value as i128),
    {
        PlaintextEncodings::try_from_int(value as i128)
    }
}

impl TryFromSpecImpl<i16> for PlaintextEncodings {
    open spec fn obeys_try_from_spec() -> bool {
        true
    }

    open spec fn try_from_spec(value: i16) -> Result<Self, Error> {
        Self::from_int(value as i128)
    }
}

impl TryFrom<u32> for PlaintextEncodings {
    type Error = Error;

    /// The encoding whose code is `value`; an error that holds `value` as a
    /// `usize` if it is the code of no encoding.
    fn try_from(value: u32) -> (r: Result<Self, Error>)
        ensures
            r == Self::from_int(value as i128),
    {
        PlaintextEncodings::try_from_int(value as i128)
    }
}

impl TryFromSpecImpl<u32> for PlaintextEncodings {
    open spec fn obeys_try_from_spec() -> bool {
        true
    }

    open spec fn try_from_spec(value: u32) -> Result<Self, Error> {
        Self::from_int(value as i128)
    }
}

impl TryFrom<i32> for PlaintextEncodings {
    type Error = Error;

    /// The encoding whose code is `value`; an error that holds `value` as a
    /// `usize` if it is the code of no encoding.
    fn try_from(value: i32) -> (r: Result<Self, Error>)
        ensures
            r == Self::from_int(value as i128),
    {
        PlaintextEncodings::try_from_int(value as i128)
    }
}

impl TryFromSpecImpl<i32> for PlaintextEncodings {
    open spec fn obeys_try_from_spec() -> bool {
        true
    }

    open spec fn try_from_spec(value: i32) -> Result<Self, Error> {
        Self::from_int(value as i128)
    }
}

impl TryFrom<u64> for PlaintextEncodings {
    type Error = Error;

    /// The encoding whose code is `value`; an error that holds `value` as a
    /// `usize` if it is the code of no encoding.
    fn try_from(value: u64) -> (r: Result<Self, Error>)
        ensures
            r == Self::from_int(value as i128),
    {
        PlaintextEncodings::try_from_int(value as i128)
    }
}

impl TryFromSpecImpl<u64> for PlaintextEncodings {
    open spec fn obeys_try_from_spec() -> bool {
        true
    }

    open spec fn try_from_spec(value: u64) -> Result<Self, Error> {
        Self::from_int(value as i128)
    }
}

impl TryFrom<i64> for PlaintextEncodings {
    type Error = Error;

    /// The encoding whose code is `value`; an error that holds `value` as a
    /// `usize` if it is the code of no encoding.
    fn try_from(value: i64) -> (r: Result<Self, Error>)
        ensures
            r == Self::from_int(value as i128),
    {
        PlaintextEncodings::try_from_int(value as i128)
    }
}

impl TryFromSpecImpl<i64> for PlaintextEncodings {
    open spec fn obeys_try_from_spec() -> bool {
        true
    }

    open spec fn try_from_spec(value: i64) -> Result<Self, Error> {
        Self::from_int(value as i128)
    }
}

impl TryFrom<usize> for PlaintextEncodings {
    type Error = Error;

    /// The encoding whose code is `value`; an error that holds `value` as a
    /// `usize` if it is the code of no encoding.
    fn try_from(value: usize) -> (r: Result<Self, Error>)
        ensures
            r == Self::from_int(value as i128),
    {
        PlaintextEncodings::try_from_int(value as i128)
    }
}

impl TryFromSpecImpl<usize> for PlaintextEncodings {
    open spec fn obeys_try_from_spec() -> bool {
        true
    }

    open spec fn try_from_spec(value: usize) -> Result<Self, Error> {
        Self::from_int(value as i128)
    }
}

impl TryFrom<isize> for PlaintextEncodings {
    type Error = Error;

    /// The encoding whose code is `value`; an error that holds `value` as a
    /// `usize` if it is the code of no encoding.
    fn try_from(value: isize) -> (r: Result<Self, Error>)
        ensures
            r == Self::from_int(value as i128),
    {
        PlaintextEncodings::try_from_int(value as i128)
    }
}

impl TryFromSpecImpl<isize> for PlaintextEncodings {
    open spec fn obeys_try_from_spec() -> bool {
        true
    }

    open spec fn try_from_spec(value: isize) -> Result<Self, Error> {
        Self::from_int(value as i128)
    }
}

} // verus!
