//! The constants for a large scaling factor.

use crate::error::Error;
use crate::fhe_core::text::{quoted, same_text};
use std::str::FromStr;
use vstd::prelude::*;
use vstd::std_specs::convert::{FromSpecImpl, TryFromSpecImpl};

verus! {

/// Constants for large scaling factor. The code of a constant is its value.
#[derive(Debug, Clone, Copy, PartialEq, Eq, Structural)]
pub enum LargeScalingFactorConstants {
    /// The largest number of bits in a word.
    MaxBitsInWord,
    /// The largest logarithm of a step.
    MaxLogStep,
}

impl LargeScalingFactorConstants {
    /// The numeric code of a constant, as it goes on the wire.
    pub open spec fn code(self) -> u8 {
        match self {
            LargeScalingFactorConstants::MaxBitsInWord => 61,
            LargeScalingFactorConstants::MaxLogStep => 60,
        }
    }

    /// The name of a constant, as it is displayed.
    pub open spec fn name(self) -> Seq<char> {
        match self {
            LargeScalingFactorConstants::MaxBitsInWord => "MaxBitsInWord"@,
            LargeScalingFactorConstants::MaxLogStep => "MaxLogStep"@,
        }
    }

    /// The constant that a number is the code of; the error that holds the
    /// number if it is the code of none.
    pub open spec fn from_code(value: u8) -> Result<Self, Error> {
        if value == 61 {
            Ok(LargeScalingFactorConstants::MaxBitsInWord)
        } else if value == 60 {
            Ok(LargeScalingFactorConstants::MaxLogStep)
        } else {
            Err(Error::InvalidLargeScalingFactorConstant(value as usize))
        }
    }

    /// The constant that an integer of any width is the code of; the error
    /// that holds the integer, cut to the width of `usize`, if it is the code
    /// of none.
    pub open spec fn from_int(value: i128) -> Result<Self, Error> {
        if 0 <= value <= 255 {
            Self::from_code(value as u8)
        } else {
            Err(Error::InvalidLargeScalingFactorConstant(value as usize))
        }
    }

    /// The constant that a text names, if any.
    pub open spec fn named(text: Seq<char>) -> Option<Self> {
        if text == "MaxBitsInWord"@ {
            Some(LargeScalingFactorConstants::MaxBitsInWord)
        } else if text == "MaxLogStep"@ {
            Some(LargeScalingFactorConstants::MaxLogStep)
        } else {
            None
        }
    }

    /// The message of the error for a text that names no constant.
    pub open spec fn unknown_name(text: Seq<char>) -> Seq<char> {
        "invalid string when parsing LargeScalingFactorConstants: '"@ + text + "'"@
    }

    /// The name of the constant.
    pub fn to_string(&self) -> (text: String)
        ensures
            text@ == self.name(),
    {
        match self {
            LargeScalingFactorConstants::MaxBitsInWord => "MaxBitsInWord".to_owned(),
            LargeScalingFactorConstants::MaxLogStep => "MaxLogStep".to_owned(),
        }
    }

    /// The constant whose code is `value`, for a code held in an integer of
    /// any width. A value that is no code comes back in the error, cut to the
    /// width of `usize`.
    pub fn try_from_int(value: i128) -> (r: Result<Self, Error>)
        ensures
            r == Self::from_int(value),
    {
        if 0 <= value && value <= 255 {
            LargeScalingFactorConstants::try_from(value as u8)
        } else {
            Err(Error::InvalidLargeScalingFactorConstant(#[verifier::truncate] (value as usize)))
        }
    }

    /// The code of every constant converts back to the constant.
    pub proof fn lemma_code_round_trip(value: Self)
        ensures
            Self::from_code(value.code()) == Ok::<Self, Error>(value),
            Self::from_int(value.code() as i128) == Ok::<Self, Error>(value),
    {
    }

    /// The name of every constant parses back to the constant.
    pub proof fn lemma_name_round_trip(value: Self)
        ensures
            Self::named(value.name()) == Some(value),
    {
        Self::lemma_names_differ();
        assert(LargeScalingFactorConstants::MaxBitsInWord.name() == "MaxBitsInWord"@);
        assert(LargeScalingFactorConstants::MaxLogStep.name() == "MaxLogStep"@);
    }

    /// A number converts to a constant only if it is the code of that
    /// constant; any other number is rejected with an error that holds it.
    pub proof fn lemma_only_codes_convert(code: u8)
        ensures
            match Self::from_code(code) {
                Ok(value) => value.code() == code,
                Err(e) => {
                    &&& e == Error::InvalidLargeScalingFactorConstant(code as usize)
                    &&& forall|value: Self| #[trigger] value.code() != code
                },
            },
    {
    }

    /// A text parses to a constant only if it is the name of that constant;
    /// any other text is rejected.
    pub proof fn lemma_only_names_parse(text: Seq<char>)
        ensures
            match Self::named(text) {
                Some(value) => value.name() == text,
                None => forall|value: Self| #[trigger] value.name() != text,
            },
    {
    }

    /// No two constants have the same name.
    proof fn lemma_names_differ()
        ensures
            forall|x: Self, y: Self| #[trigger] x.name() == #[trigger] y.name() ==> x == y,
    {
        reveal_strlit("MaxBitsInWord");
        reveal_strlit("MaxLogStep");
        assert forall|x: Self, y: Self| #[trigger] x.name() == #[trigger] y.name() implies x
            == y by {
            assert(x.name().len() == y.name().len());
        }
    }
}

impl TryFrom<u8> for LargeScalingFactorConstants {
    type Error = Error;

    /// The constant whose code is `value`; an error that holds `value` if it
    /// is the code of no constant.
    fn try_from(value: u8) -> (r: Result<Self, Error>)
        ensures
            r == Self::from_code(value),
    {
        match value {
            61 => Ok(LargeScalingFactorConstants::MaxBitsInWord),
            60 => Ok(LargeScalingFactorConstants::MaxLogStep),
            _ => Err(Error::InvalidLargeScalingFactorConstant(value as usize)),
        }
    }
}

impl TryFromSpecImpl<u8> for LargeScalingFactorConstants {
    open spec fn obeys_try_from_spec() -> bool {
        true
    }

    open spec fn try_from_spec(value: u8) -> Result<Self, Error> {
        Self::from_code(value)
    }
}

impl From<LargeScalingFactorConstants> for u8 {
    /// The numeric code of the constant.
    fn from(value: LargeScalingFactorConstants) -> (code: u8)
        ensures
            code == value.code(),
    {
        match value {
            LargeScalingFactorConstants::MaxBitsInWord => 61,
            LargeScalingFactorConstants::MaxLogStep => 60,
        }
    }
}

impl FromSpecImpl<LargeScalingFactorConstants> for u8 {
    open spec fn obeys_from_spec() -> bool {
        true
    }

    open spec fn from_spec(value: LargeScalingFactorConstants) -> u8 {
        value.code()
    }
}

impl FromStr for LargeScalingFactorConstants {
    type Err = Error;

    /// The constant that `s` names; an error whose message quotes `s` if it
    /// names none.
    fn from_str(s: &str) -> (r: Result<Self, Error>)
        ensures
            match Self::named(s@) {
                Some(value) => r == Ok::<Self, Error>(value),
                None => {
                    &&& r matches Err(Error::ParseError(message))
                    &&& message@ == Self::unknown_name(s@)
                },
            },
    {
        if same_text(s, "MaxBitsInWord") {
            Ok(LargeScalingFactorConstants::MaxBitsInWord)
        } else if same_text(s, "MaxLogStep") {
            Ok(LargeScalingFactorConstants::MaxLogStep)
        } else {
            Err(
                Error::ParseError(
                    quoted(
                        "invalid string when parsing LargeScalingFactorConstants: '",
                        s,
                        "'",
                    ),
                ),
            )
        }
    }
}

// The code in the wider integer types.
impl From<LargeScalingFactorConstants> for i8 {
    /// The numeric code of the constant, as `i8`.
    fn from(value: LargeScalingFactorConstants) -> (code: i8)
        ensures
            code == value.code(),
    {
        u8::from(value) as i8
    }
}

impl FromSpecImpl<LargeScalingFactorConstants> for i8 {
    open spec fn obeys_from_spec() -> bool {
        true
    }

    open spec fn from_spec(value: LargeScalingFactorConstants) -> i8 {
        value.code() as i8
    }
}

impl From<LargeScalingFactorConstants> for u16 {
    /// The numeric code of the constant, as `u16`.
    fn from(value: LargeScalingFactorConstants) -> (code: u16)
        ensures
            code == value.code(),
    {
        u8::from(value) as u16
    }
}

impl FromSpecImpl<LargeScalingFactorConstants> for u16 {
    open spec fn obeys_from_spec() -> bool {
        true
    }

    open spec fn from_spec(value: LargeScalingFactorConstants) -> u16 {
        value.code() as u16
    }
}

impl From<LargeScalingFactorConstants> for i16 {
    /// The numeric code of the constant, as `i16`.
    fn from(value: LargeScalingFactorConstants) -> (code: i16)
        ensures
            code == value.code(),
    {
        u8::from(value) as i16
    }
}

impl FromSpecImpl<LargeScalingFactorConstants> for i16 {
    open spec fn obeys_from_spec() -> bool {
        true
    }

    open spec fn from_spec(value: LargeScalingFactorConstants) -> i16 {
        value.code() as i16
    }
}

impl From<LargeScalingFactorConstants> for u32 {
    /// The numeric code of the constant, as `u32`.
    fn from(value: LargeScalingFactorConstants) -> (code: u32)
        ensures
            code == value.code(),
    {
        u8::from(value) as u32
    }
}

impl FromSpecImpl<LargeScalingFactorConstants> for u32 {
    open spec fn obeys_from_spec() -> bool {
        true
    }

    open spec fn from_spec(value: LargeScalingFactorConstants) -> u32 {
        value.code() as u32
    }
}

impl From<LargeScalingFactorConstants> for i32 {
    /// The numeric code of the constant, as `i32`.
    fn from(value: LargeScalingFactorConstants) -> (code: i32)
        ensures
            code == value.code(),
    {
        u8::from(value) as i32
    }
}

impl FromSpecImpl<LargeScalingFactorConstants> for i32 {
    open spec fn obeys_from_spec() -> bool {
        true
    }

    open spec fn from_spec(value: LargeScalingFactorConstants) -> i32 {
        value.code() as i32
    }
}

impl From<LargeScalingFactorConstants> for u64 {
    /// The numeric code of the constant, as `u64`.
    fn from(value: LargeScalingFactorConstants) -> (code: u64)
        ensures
            code == value.code(),
    {
        u8::from(value) as u64
    }
}

impl FromSpecImpl<LargeScalingFactorConstants> for u64 {
    open spec fn obeys_from_spec() -> bool {
        true
    }

    open spec fn from_spec(value: LargeScalingFactorConstants) -> u64 {
        value.code() as u64
    }
}

impl From<LargeScalingFactorConstants> for i64 {
    /// The numeric code of the constant, as `i64`.
    fn from(value: LargeScalingFactorConstants) -> (code: i64)
        ensures
            code == value.code(),
    {
        u8::from(value) as i64
    }
}

impl FromSpecImpl<LargeScalingFactorConstants> for i64 {
    open spec fn obeys_from_spec() -> bool {
        true
    }

    open spec fn from_spec(value: LargeScalingFactorConstants) -> i64 {
        value.code() as i64
    }
}

impl From<LargeScalingFactorConstants> for usize {
    /// The numeric code of the constant, as `usize`.
    fn from(value: LargeScalingFactorConstants) -> (code: usize)
        ensures
            code == value.code(),
    {
        u8::from(value) as usize
    }
}

impl FromSpecImpl<LargeScalingFactorConstants> for usize {
    open spec fn obeys_from_spec() -> bool {
        true
    }

    open spec fn from_spec(value: LargeScalingFactorConstants) -> usize {
        value.code() as usize
    }
}

impl From<LargeScalingFactorConstants> for isize {
    /// The numeric code of the constant, as `isize`.
    fn from(value: LargeScalingFactorConstants) -> (code: isize)
        ensures
            code == value.code(),
    {
        u8::from(value) as isize
    }
}

impl FromSpecImpl<LargeScalingFactorConstants> for isize {
    open spec fn obeys_from_spec() -> bool {
        true
    }

    open spec fn from_spec(value: LargeScalingFactorConstants) -> isize {
        value.code() as isize
    }
}

// The code out of the wider integer types.
impl TryFrom<i8> for LargeScalingFactorConstants {
    type Error = Error;

    /// The constant whose code is `value`; an error that holds `value` as a
    /// `usize` if it is the code of no constant.
    fn try_from(value: i8) -> (r: Result<Self, Error>)
        ensures
            r == Self::from_int(value as i128),
    {
        LargeScalingFactorConstants::try_from_int(value as i128)
    }
}

impl TryFromSpecImpl<i8> for LargeScalingFactorConstants {
    open spec fn obeys_try_from_spec() -> bool {
        true
    }

    open spec fn try_from_spec(value: i8) -> Result<Self, Error> {
        Self::from_int(value as i128)
    }
}

impl TryFrom<u16> for LargeScalingFactorConstants {
    type Error = Error;

    /// The constant whose code is `value`; an error that holds `value` as a
    /// `usize` if it is the code of no constant.
    fn try_from(value: u16) -> (r: Result<Self, Error>)
        ensures
            r == Self::from_int(value as i128),
    {
        LargeScalingFactorConstants::try_from_int(value as i128)
    }
}

impl TryFromSpecImpl<u16> for LargeScalingFactorConstants {
    open spec fn obeys_try_from_spec() -> bool {
        true
    }

    open spec fn try_from_spec(value: u16) -> Result<Self, Error> {
        Self::from_int(value as i128)
    }
}

impl TryFrom<i16> for LargeScalingFactorConstants {
    type Error = Error;

    /// The constant whose code is `value`; an error that holds `value` as a
    /// `usize` if it is the code of no constant.
    fn try_from(value: i16) -> (r: Result<Self, Error>)
        ensures
            r == Self::from_int(value as i128),
    {
        LargeScalingFactorConstants::try_from_int(value as i128)
    }
}

impl TryFromSpecImpl<i16> for LargeScalingFactorConstants {
    open spec fn obeys_try_from_spec() -> bool {
        true
    }

    open spec fn try_from_spec(value: i16) -> Result<Self, Error> {
        Self::from_int(value as i128)
    }
}

impl TryFrom<u32> for LargeScalingFactorConstants {
    type Error = Error;

    /// The constant whose code is `value`; an error that holds `value` as a
    /// `usize` if it is the code of no constant.
    fn try_from(value: u32) -> (r: Result<Self, Error>)
        ensures
            r == Self::from_int(value as i128),
    {
        LargeScalingFactorConstants::try_from_int(value as i128)
    }
}

impl TryFromSpecImpl<u32> for LargeScalingFactorConstants {
    open spec fn obeys_try_from_spec() -> bool {
        true
    }

    open spec fn try_from_spec(value: u32) -> Result<Self, Error> {
        Self::from_int(value as i128)
    }
}

impl TryFrom<i32> for LargeScalingFactorConstants {
    type Error = Error;

    /// The constant whose code is `value`; an error that holds `value` as a
    /// `usize` if it is the code of no constant.
    fn try_from(value: i32) -> (r: Result<Self, Error>)
        ensures
            r == Self::from_int(value as i128),
    {
        LargeScalingFactorConstants::try_from_int(value as i128)
    }
}

impl TryFromSpecImpl<i32> for LargeScalingFactorConstants {
    open spec fn obeys_try_from_spec() -> bool {
        true
    }

    open spec fn try_from_spec(value: i32) -> Result<Self, Error> {
        Self::from_int(value as i128)
    }
}

impl TryFrom<u64> for LargeScalingFactorConstants {
    type Error = Error;

    /// The constant whose code is `value`; an error that holds `value` as a
    /// `usize` if it is the code of no constant.
    fn try_from(value: u64) -> (r: Result<Self, Error>)
        ensures
            r == Self::from_int(value as i128),
    {
        LargeScalingFactorConstants::try_from_int(value as i128)
    }
}

impl TryFromSpecImpl<u64> for LargeScalingFactorConstants {
    open spec fn obeys_try_from_spec() -> bool {
        true
    }

    open spec fn try_from_spec(value: u64) -> Result<Self, Error> {
        Self::from_int(value as i128)
    }
}

impl TryFrom<i64> for LargeScalingFactorConstants {
    type Error = Error;

    /// The constant whose code is `value`; an error that holds `value` as a
    /// `usize` if it is the code of no constant.
    fn try_from(value: i64) -> (r: Result<Self, Error>)
        ensures
            r == Self::from_int(value as i128),
    {
        LargeScalingFactorConstants::try_from_int(value as i128)
    }
}

impl TryFromSpecImpl<i64> for LargeScalingFactorConstants {
    open spec fn obeys_try_from_spec() -> bool {
        true
    }

    open spec fn try_from_spec(value: i64) -> Result<Self, Error> {
        Self::from_int(value as i128)
    }
}

impl TryFrom<usize> for LargeScalingFactorConstants {
    type Error = Error;

    /// The constant whose code is `value`; an error that holds `value` as a
    /// `usize` if it is the code of no constant.
    fn try_from(value: usize) -> (r: Result<Self, Error>)
        ensures
            r == Self::from_int(value as i128),
    {
        LargeScalingFactorConstants::try_from_int(value as i128)
    }
}

impl TryFromSpecImpl<usize> for LargeScalingFactorConstants {
    open spec fn obeys_try_from_spec() -> bool {
        true
    }

    open spec fn try_from_spec(value: usize) -> Result<Self, Error> {
        Self::from_int(value as i128)
    }
}

impl TryFrom<isize> for LargeScalingFactorConstants {
    type Error = Error;

    /// The constant whose code is `value`; an error that holds `value` as a
    /// `usize` if it is the code of no constant.
    fn try_from(value: isize) -> (r: Result<Self, Error>)
        ensures
            r == Self::from_int(value as i128),
    {
        LargeScalingFactorConstants::try_from_int(value as i128)
    }
}

impl TryFromSpecImpl<isize> for LargeScalingFactorConstants {
    open spec fn obeys_try_from_spec() -> bool {
        true
    }

    open spec fn try_from_spec(value: isize) -> Result<Self, Error> {
        Self::from_int(value as i128)
    }
}

} // verus!
