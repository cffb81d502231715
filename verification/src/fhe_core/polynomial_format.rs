//! The polynomial format.

use crate::error::Error;
use crate::fhe_core::text::{quoted, same_text};
use std::str::FromStr;
use vstd::prelude::*;
use vstd::std_specs::convert::{FromSpecImpl, TryFromSpecImpl};

verus! {

/// The representation of a ring element.
#[derive(Debug, Clone, Copy, PartialEq, Eq, Structural)]
pub enum PolynomialFormat {
    /// Ring is evaluation representation
    Evaluation,
    /// Ring is coefficient representation
    Coefficient,
}

impl PolynomialFormat {
    /// The numeric code of a format, as it goes on the wire.
    pub open spec fn code(self) -> u8 {
        match self {
            PolynomialFormat::Evaluation => 0,
            PolynomialFormat::Coefficient => 1,
        }
    }

    /// The name of a format, as it is displayed.
    pub open spec fn name(self) -> Seq<char> {
        match self {
            PolynomialFormat::Evaluation => "Evaluation"@,
            PolynomialFormat::Coefficient => "Coefficient"@,
        }
    }

    /// The format that a number is the code of; the error that holds the
    /// number if it is the code of none.
    pub open spec fn from_code(value: u8) -> Result<Self, Error> {
        if value == 0 {
            Ok(PolynomialFormat::Evaluation)
        } else if value == 1 {
            Ok(PolynomialFormat::Coefficient)
        } else {
            Err(Error::InvalidPolynomialFormat(value as usize))
        }
    }

    /// The format that an integer of any width is the code of; the error that
    /// holds the integer, cut to the width of `usize`, if it is the code of
    /// none.
    pub open spec fn from_int(value: i128) -> Result<Self, Error> {
        if 0 <= value <= 255 {
            Self::from_code(value as u8)
        } else {
            Err(Error::InvalidPolynomialFormat(value as usize))
        }
    }

    /// The format that a text names, if any.
    pub open spec fn named(text: Seq<char>) -> Option<Self> {
        if text == "Evaluation"@ {
            Some(PolynomialFormat::Evaluation)
        } else if text == "Coefficient"@ {
            Some(PolynomialFormat::Coefficient)
        } else {
            None
        }
    }

    /// The message of the error for a text that names no format.
    pub open spec fn unknown_name(text: Seq<char>) -> Seq<char> {
        "invalid string when parsing PolynomialFormat: '"@ + text
            + "'. Expected 'Evaluation' or 'Coefficient'"@
    }

    /// The name of the format.
    pub fn to_string(&self) -> (text: String)
        ensures
            text@ == self.name(),
    {
        match self {
            PolynomialFormat::Evaluation => "Evaluation".to_owned(),
            PolynomialFormat::Coefficient => "Coefficient".to_owned(),
        }
    }

    /// The format whose code is `value`, for a code held in an integer of any
    /// width. A value that is no code comes back in the error, cut to the
    /// width of `usize`.
    pub fn try_from_int(value: i128) -> (r: Result<Self, Error>)
        ensures
            r == Self::from_int(value),
    {
        if 0 <= value && value <= 255 {
            PolynomialFormat::try_from(value as u8)
        } else {
            Err(Error::InvalidPolynomialFormat(#[verifier::truncate] (value as usize)))
        }
    }

    /// The code of every format converts back to the format.
    pub proof fn lemma_code_round_trip(value: Self)
        ensures
            Self::from_code(value.code()) == Ok::<Self, Error>(value),
            Self::from_int(value.code() as i128) == Ok::<Self, Error>(value),
    {
    }

    /// The name of every format parses back to the format.
    pub proof fn lemma_name_round_trip(value: Self)
        ensures
            Self::named(value.name()) == Some(value),
    {
        Self::lemma_names_differ();
        assert(PolynomialFormat::Evaluation.name() == "Evaluation"@);
        assert(PolynomialFormat::Coefficient.name() == "Coefficient"@);
    }

    /// A number converts to a format only if it is the code of that format;
    /// any other number is rejected with an error that holds it.
    pub proof fn lemma_only_codes_convert(code: u8)
        ensures
            match Self::from_code(code) {
                Ok(value) => value.code() == code,
                Err(e) => {
                    &&& e == Error::InvalidPolynomialFormat(code as usize)
                    &&& forall|value: Self| #[trigger] value.code() != code
                },
            },
    {
    }

    /// A text parses to a format only if it is the name of that format; any
    /// other text is rejected.
    pub proof fn lemma_only_names_parse(text: Seq<char>)
        ensures
            match Self::named(text) {
                Some(value) => value.name() == text,
                None => forall|value: Self| #[trigger] value.name() != text,
            },
    {
    }

    /// No two formats have the same name.
    proof fn lemma_names_differ()
        ensures
            forall|x: Self, y: Self| #[trigger] x.name() == #[trigger] y.name() ==> x == y,
    {
        reveal_strlit("Evaluation");
        reveal_strlit("Coefficient");
        assert forall|x: Self, y: Self| #[trigger] x.name() == #[trigger] y.name() implies x
            == y by {
            assert(x.name().len() == y.name().len());
        }
    }
}

impl TryFrom<u8> for PolynomialFormat {
    type Error = Error;

    /// The format whose code is `value`; an error that holds `value` if it is
    /// the code of no format.
    fn try_from(value: u8) -> (r: Result<Self, Error>)
        ensures
            r == Self::from_code(value),
    {
        match value {
            0 => Ok(PolynomialFormat::Evaluation),
            1 => Ok(PolynomialFormat::Coefficient),
            _ => Err(Error::InvalidPolynomialFormat(value as usize)),
        }
    }
}

impl TryFromSpecImpl<u8> for PolynomialFormat {
    open spec fn obeys_try_from_spec() -> bool {
        true
    }

    open spec fn try_from_spec(value: u8) -> Result<Self, Error> {
        Self::from_code(value)
    }
}

impl From<PolynomialFormat> for u8 {
    /// The numeric code of the format.
    fn from(value: PolynomialFormat) -> (code: u8)
        ensures
            code == value.code(),
    {
        match value {
            PolynomialFormat::Evaluation => 0,
            PolynomialFormat::Coefficient => 1,
        }
    }
}

impl FromSpecImpl<PolynomialFormat> for u8 {
    open spec fn obeys_from_spec() -> bool {
        true
    }

    open spec fn from_spec(value: PolynomialFormat) -> u8 {
        value.code()
    }
}

impl FromStr for PolynomialFormat {
    type Err = Error;

    /// The format that `s` names; an error whose message quotes `s` if it
    /// names none.
    fn from_str(s: &str) -> (r: Result<Self, Error>)
        ensures
            match Self::named(s@) {
                Some(value) => r == Ok::<Self, Error>(value),
                None => {
                    &&& r matches Err(Error::ParseError(message))
                    &&& message@ == Self::unknown_name(s@)
                },
            },
    {
        if same_text(s, "Evaluation") {
            Ok(PolynomialFormat::Evaluation)
        } else if same_text(s, "Coefficient") {
            Ok(PolynomialFormat::Coefficient)
        } else {
            Err(
                Error::ParseError(
                    quoted(
                        "invalid string when parsing PolynomialFormat: '",
                        s,
                        "'. Expected 'Evaluation' or 'Coefficient'",
                    ),
                ),
            )
        }
    }
}

impl Default for PolynomialFormat {
    /// `Evaluation`.
    fn default() -> (value: Self)
        ensures
            value == PolynomialFormat::Evaluation,
    {
        PolynomialFormat::Evaluation
    }
}

// The code in the wider integer types.
impl From<PolynomialFormat> for i8 {
    /// The numeric code of the format, as `i8`.
    fn from(value: PolynomialFormat) -> (code: i8)
        ensures
            code == value.code(),
    {
        u8::from(value) as i8
    }
}

impl FromSpecImpl<PolynomialFormat> for i8 {
    open spec fn obeys_from_spec() -> bool {
        true
    }

    open spec fn from_spec(value: PolynomialFormat) -> i8 {
        value.code() as i8
    }
}

impl From<PolynomialFormat> for u16 {
    /// The numeric code of the format, as `u16`.
    fn from(value: PolynomialFormat) -> (code: u16)
        ensures
            code == value.code(),
    {
        u8::from(value) as u16
    }
}

impl FromSpecImpl<PolynomialFormat> for u16 {
    open spec fn obeys_from_spec() -> bool {
        true
    }

    open spec fn from_spec(value: PolynomialFormat) -> u16 {
        value.code() as u16
    }
}

impl From<PolynomialFormat> for i16 {
    /// The numeric code of the format, as `i16`.
    fn from(value: PolynomialFormat) -> (code: i16)
        ensures
            code == value.code(),
    {
        u8::from(value) as i16
    }
}

impl FromSpecImpl<PolynomialFormat> for i16 {
    open spec fn obeys_from_spec() -> bool {
        true
    }

    open spec fn from_spec(value: PolynomialFormat) -> i16 {
        value.code() as i16
    }
}

impl From<PolynomialFormat> for u32 {
    /// The numeric code of the format, as `u32`.
    fn from(value: PolynomialFormat) -> (code: u32)
        ensures
            code == value.code(),
    {
        u8::from(value) as u32
    }
}

impl FromSpecImpl<PolynomialFormat> for u32 {
    open spec fn obeys_from_spec() -> bool {
        true
    }

    open spec fn from_spec(value: PolynomialFormat) -> u32 {
        value.code() as u32
    }
}

impl From<PolynomialFormat> for i32 {
    /// The numeric code of the format, as `i32`.
    fn from(value: PolynomialFormat) -> (code: i32)
        ensures
            code == value.code(),
    {
        u8::from(value) as i32
    }
}

impl FromSpecImpl<PolynomialFormat> for i32 {
    open spec fn obeys_from_spec() -> bool {
        true
    }

    open spec fn from_spec(value: PolynomialFormat) -> i32 {
        value.code() as i32
    }
}

impl From<PolynomialFormat> for u64 {
    /// The numeric code of the format, as `u64`.
    fn from(value: PolynomialFormat) -> (code: u64)
        ensures
            code == value.code(),
    {
        u8::from(value) as u64
    }
}

impl FromSpecImpl<PolynomialFormat> for u64 {
    open spec fn obeys_from_spec() -> bool {
        true
    }

    open spec fn from_spec(value: PolynomialFormat) -> u64 {
        value.code() as u64
    }
}

impl From<PolynomialFormat> for i64 {
    /// The numeric code of the format, as `i64`.
    fn from(value: PolynomialFormat) -> (code: i64)
        ensures
            code == value.code(),
    {
        u8::from(value) as i64
    }
}

impl FromSpecImpl<PolynomialFormat> for i64 {
    open spec fn obeys_from_spec() -> bool {
        true
    }

    open spec fn from_spec(value: PolynomialFormat) -> i64 {
        value.code() as i64
    }
}

impl From<PolynomialFormat> for usize {
    /// The numeric code of the format, as `usize`.
    fn from(value: PolynomialFormat) -> (code: usize)
        ensures
            code == value.code(),
    {
        u8::from(value) as usize
    }
}

impl FromSpecImpl<PolynomialFormat> for usize {
    open spec fn obeys_from_spec() -> bool {
        true
    }

    open spec fn from_spec(value: PolynomialFormat) -> usize {
        value.code() as usize
    }
}

impl From<PolynomialFormat> for isize {
    /// The numeric code of the format, as `isize`.
    fn from(value: PolynomialFormat) -> (code: isize)
        ensures
            code == value.code(),
    {
        u8::from(value) as isize
    }
}

impl FromSpecImpl<PolynomialFormat> for isize {
    open spec fn obeys_from_spec() -> bool {
        true
    }

    open spec fn from_spec(value: PolynomialFormat) -> isize {
        value.code() as isize
    }
}

// The code out of the wider integer types.
impl TryFrom<i8> for PolynomialFormat {
    type Error = Error;

    /// The format whose code is `value`; an error that holds `value` as a
    /// `usize` if it is the code of no format.
    fn try_from(value: i8) -> (r: Result<Self, Error>)
        ensures
            r == Self::from_int(value as i128),
    {
        PolynomialFormat::try_from_int(value as i128)
    }
}

impl TryFromSpecImpl<i8> for PolynomialFormat {
    open spec fn obeys_try_from_spec() -> bool {
        true
    }

    open spec fn try_from_spec(value: i8) -> Result<Self, Error> {
        Self::from_int(value as i128)
    }
}

impl TryFrom<u16> for PolynomialFormat {
    type Error = Error;

    /// The format whose code is `value`; an error that holds `value` as a
    /// `usize` if it is the code of no format.
    fn try_from(value: u16) -> (r: Result<Self, Error>)
        ensures
            r == Self::from_int(value as i128),
    {
        PolynomialFormat::try_from_int(value as i128)
    }
}

impl TryFromSpecImpl<u16> for PolynomialFormat {
    open spec fn obeys_try_from_spec() -> bool {
        true
    }

    open spec fn try_from_spec(value: u16) -> Result<Self, Error> {
        Self::from_int(value as i128)
    }
}

impl TryFrom<i16> for PolynomialFormat {
    type Error = Error;

    /// The format whose code is `value`; an error that holds `value` as a
    /// `usize` if it is the code of no format.
    fn try_from(value: i16) -> (r: Result<Self, Error>)
        ensures
            r == Self::from_int(value as i128),
    {
        PolynomialFormat::try_from_int(value as i128)
    }
}

impl TryFromSpecImpl<i16> for PolynomialFormat {
    open spec fn obeys_try_from_spec() -> bool {
        true
    }

    open spec fn try_from_spec(value: i16) -> Result<Self, Error> {
        Self::from_int(value as i128)
    }
}

impl TryFrom<u32> for PolynomialFormat {
    type Error = Error;

    /// The format whose code is `value`; an error that holds `value` as a
    /// `usize` if it is the code of no format.
    fn try_from(value: u32) -> (r: Result<Self, Error>)
        ensures
            r == Self::from_int(value as i128),
    {
        PolynomialFormat::try_from_int(value as i128)
    }
}

impl TryFromSpecImpl<u32> for PolynomialFormat {
    open spec fn obeys_try_from_spec() -> bool {
        true
    }

    open spec fn try_from_spec(value: u32) -> Result<Self, Error> {
        Self::from_int(value as i128)
    }
}

impl TryFrom<i32> for PolynomialFormat {
    type Error = Error;

    /// The format whose code is `value`; an error that holds `value` as a
    /// `usize` if it is the code of no format.
    fn try_from(value: i32) -> (r: Result<Self, Error>)
        ensures
            r == Self::from_int(value as i128),
    {
        PolynomialFormat::try_from_int(value as i128)
    }
}

impl TryFromSpecImpl<i32> for PolynomialFormat {
    open spec fn obeys_try_from_spec() -> bool {
        true
    }

    open spec fn try_from_spec(value: i32) -> Result<Self, Error> {
        Self::from_int(value as i128)
    }
}

impl TryFrom<u64> for PolynomialFormat {
    type Error = Error;

    /// The format whose code is `value`; an error that holds `value` as a
    /// `usize` if it is the code of no format.
    fn try_from(value: u64) -> (r: Result<Self, Error>)
        ensures
            r == Self::from_int(value as i128),
    {
        PolynomialFormat::try_from_int(value as i128)
    }
}

impl TryFromSpecImpl<u64> for PolynomialFormat {
    open spec fn obeys_try_from_spec() -> bool {
        true
    }

    open spec fn try_from_spec(value: u64) -> Result<Self, Error> {
        Self::from_int(value as i128)
    }
}

impl TryFrom<i64> for PolynomialFormat {
    type Error = Error;

    /// The format whose code is `value`; an error that holds `value` as a
    /// `usize` if it is the code of no format.
    fn try_from(value: i64) -> (r: Result<Self, Error>)
        ensures
            r == Self::from_int(value as i128),
    {
        PolynomialFormat::try_from_int(value as i128)
    }
}

impl TryFromSpecImpl<i64> for PolynomialFormat {
    open spec fn obeys_try_from_spec() -> bool {
        true
    }

    open spec fn try_from_spec(value: i64) -> Result<Self, Error> {
        Self::from_int(value as i128)
    }
}

impl TryFrom<usize> for PolynomialFormat {
    type Error = Error;

    /// The format whose code is `value`; an error that holds `value` as a
    /// `usize` if it is the code of no format.
    fn try_from(value: usize) -> (r: Result<Self, Error>)
        ensures
            r == Self::from_int(value as i128),
    {
        PolynomialFormat::try_from_int(value as i128)
    }
}

impl TryFromSpecImpl<usize> for PolynomialFormat {
    open spec fn obeys_try_from_spec() -> bool {
        true
    }

    open spec fn try_from_spec(value: usize) -> Result<Self, Error> {
        Self::from_int(value as i128)
    }
}

impl TryFrom<isize> for PolynomialFormat {
    type Error = Error;

    /// The format whose code is `value`; an error that holds `value` as a
    /// `usize` if it is the code of no format.
    fn try_from(value: isize) -> (r: Result<Self, Error>)
        ensures
            r == Self::from_int(value as i128),
    {
        PolynomialFormat::try_from_int(value as i128)
    }
}

impl TryFromSpecImpl<isize> for PolynomialFormat {
    open spec fn obeys_try_from_spec() -> bool {
        true
    }

    open spec fn try_from_spec(value: isize) -> Result<Self, Error> {
        Self::from_int(value as i128)
    }
}

} // verus!
