//! The compression level.

use crate::error::Error;
use crate::fhe_core::text::{quoted, same_text};
use std::str::FromStr;
use vstd::prelude::*;
use vstd::std_specs::convert::{FromSpecImpl, TryFromSpecImpl};

verus! {

/// Defining the level to which the input ciphertext is brought to before
/// interactive multi-party bootstrapping.
///
/// Levels 0 and 1 are not supported: the codes start at 2.
#[derive(Debug, Clone, Copy, PartialEq, Eq, Structural)]
pub enum CompressionLevel {
    /// More efficient, with a stronger security assumption.
    Compact,
    /// Less efficient, with a weaker security assumption.
    Slack,
}

impl CompressionLevel {
    /// The numeric code of a level, as it goes on the wire.
    pub open spec fn code(self) -> u8 {
        match self {
            CompressionLevel::Compact => 2,
            CompressionLevel::Slack => 3,
        }
    }

    /// The name of a level, as it is displayed.
    pub open spec fn name(self) -> Seq<char> {
        match self {
            CompressionLevel::Compact => "Compact"@,
            CompressionLevel::Slack => "Slack"@,
        }
    }

    /// The level that a number is the code of; the error that holds the number
    /// if it is the code of none.
    pub open spec fn from_code(value: u8) -> Result<Self, Error> {
        if value == 2 {
            Ok(CompressionLevel::Compact)
        } else if value == 3 {
            Ok(CompressionLevel::Slack)
        } else {
            Err(Error::InvalidCompressionLevel(value as usize))
        }
    }

    /// The level that an integer of any width is the code of; the error that
    /// holds the integer, cut to the width of `usize`, if it is the code of
    /// none.
    pub open spec fn from_int(value: i128) -> Result<Self, Error> {
        if 0 <= value <= 255 {
            Self::from_code(value as u8)
        } else {
            Err(Error::InvalidCompressionLevel(value as usize))
        }
    }

    /// The level that a text names, if any.
    pub open spec fn named(text: Seq<char>) -> Option<Self> {
        if text == "Compact"@ {
            Some(CompressionLevel::Compact)
        } else if text == "Slack"@ {
            Some(CompressionLevel::Slack)
        } else {
            None
        }
    }

    /// The message of the error for a text that names no level.
    pub open spec fn unknown_name(text: Seq<char>) -> Seq<char> {
        "invalid string when parsing CompressionLevel: '"@ + text + "'"@
    }

    /// The name of the level.
    pub fn to_string(&self) -> (text: String)
        ensures
            text@ == self.name(),
    {
        match self {
            CompressionLevel::Compact => "Compact".to_owned(),
            CompressionLevel::Slack => "Slack".to_owned(),
        }
    }

    /// The level whose code is `value`, for a code held in an integer of any
    /// width. A value that is no code comes back in the error, cut to the
    /// width of `usize`.
    pub fn try_from_int(value: i128) -> (r: Result<Self, Error>)
        ensures
            r == Self::from_int(value),
    {
        if 0 <= value && value <= 255 {
            CompressionLevel::try_from(value as u8)
        } else {
            Err(Error::InvalidCompressionLevel(#[verifier::truncate] (value as usize)))
        }
    }

    /// The code of every level converts back to the level.
    pub proof fn lemma_code_round_trip(value: Self)
        ensures
            Self::from_code(value.code()) == Ok::<Self, Error>(value),
            Self::from_int(value.code() as i128) == Ok::<Self, Error>(value),
    {
    }

    /// The name of every level parses back to the level.
    pub proof fn lemma_name_round_trip(value: Self)
        ensures
            Self::named(value.name()) == Some(value),
    {
        Self::lemma_names_differ();
        assert(CompressionLevel::Compact.name() == "Compact"@);
        assert(CompressionLevel::Slack.name() == "Slack"@);
    }

    /// A number converts to a level only if it is the code of that level; any
    /// other number is rejected with an error that holds it.
    pub proof fn lemma_only_codes_convert(code: u8)
        ensures
            match Self::from_code(code) {
                Ok(value) => value.code() == code,
                Err(e) => {
                    &&& e == Error::InvalidCompressionLevel(code as usize)
                    &&& forall|value: Self| #[trigger] value.code() != code
                },
            },
    {
    }

    /// A text parses to a level only if it is the name of that level; any
    /// other text is rejected.
    pub proof fn lemma_only_names_parse(text: Seq<char>)
        ensures
            match Self::named(text) {
                Some(value) => value.name() == text,
                None => forall|value: Self| #[trigger] value.name() != text,
            },
    {
    }

    /// No two levels have the same name.
    proof fn lemma_names_differ()
        ensures
            forall|x: Self, y: Self| #[trigger] x.name() == #[trigger] y.name() ==> x == y,
    {
        reveal_strlit("Compact");
        reveal_strlit("Slack");
        assert forall|x: Self, y: Self| #[trigger] x.name() == #[trigger] y.name() implies x
            == y by {
            assert(x.name().len() == y.name().len());
        }
    }
}

impl TryFrom<u8> for CompressionLevel {
    type Error = Error;

    /// The level whose code is `value`; an error that holds `value` if it is
    /// the code of no level.
    fn try_from(value: u8) -> (r: Result<Self, Error>)
        ensures
            r == Self::from_code(value),
    {
        match value {
            2 => Ok(CompressionLevel::Compact),
            3 => Ok(CompressionLevel::Slack),
            _ => Err(Error::InvalidCompressionLevel(value as usize)),
        }
    }
}

impl TryFromSpecImpl<u8> for CompressionLevel {
    open spec fn obeys_try_from_spec() -> bool {
        true
    }

    open spec fn try_from_spec(value: u8) -> Result<Self, Error> {
        Self::from_code(value)
    }
}

impl From<CompressionLevel> for u8 {
    /// The numeric code of the level.
    fn from(value: CompressionLevel) -> (code: u8)
        ensures
            code == value.code(),
    {
        match value {
            CompressionLevel::Compact => 2,
            CompressionLevel::Slack => 3,
        }
    }
}

impl FromSpecImpl<CompressionLevel> for u8 {
    open spec fn obeys_from_spec() -> bool {
        true
    }

    open spec fn from_spec(value: CompressionLevel) -> u8 {
        value.code()
    }
}

impl FromStr for CompressionLevel {
    type Err = Error;

    /// The level that `s` names; an error whose message quotes `s` if it names
    /// none.
    fn from_str(s: &str) -> (r: Result<Self, Error>)
        ensures
            match Self::named(s@) {
                Some(value) => r == Ok::<Self, Error>(value),
                None => {
                    &&& r matches Err(Error::ParseError(message))
                    &&& message@ == Self::unknown_name(s@)
                },
            },
    {
        if same_text(s, "Compact") {
            Ok(CompressionLevel::Compact)
        } else if same_text(s, "Slack") {
            Ok(CompressionLevel::Slack)
        } else {
            Err(
                Error::ParseError(
                    quoted(
                        "invalid string when parsing CompressionLevel: '",
                        s,
                        "'",
                    ),
                ),
            )
        }
    }
}

// The code in the wider integer types.
impl From<CompressionLevel> for i8 {
    /// The numeric code of the level, as `i8`.
    fn from(value: CompressionLevel) -> (code: i8)
        ensures
            code == value.code(),
    {
        u8::from(value) as i8
    }
}

impl FromSpecImpl<CompressionLevel> for i8 {
    open spec fn obeys_from_spec() -> bool {
        true
    }

    open spec fn from_spec(value: CompressionLevel) -> i8 {
        value.code() as i8
    }
}

impl From<CompressionLevel> for u16 {
    /// The numeric code of the level, as `u16`.
    fn from(value: CompressionLevel) -> (code: u16)
        ensures
            code == value.code(),
    {
        u8::from(value) as u16
    }
}

impl FromSpecImpl<CompressionLevel> for u16 {
    open spec fn obeys_from_spec() -> bool {
        true
    }

    open spec fn from_spec(value: CompressionLevel) -> u16 {
        value.code() as u16
    }
}

impl From<CompressionLevel> for i16 {
    /// The numeric code of the level, as `i16`.
    fn from(value: CompressionLevel) -> (code: i16)
        ensures
            code == value.code(),
    {
        u8::from(value) as i16
    }
}

impl FromSpecImpl<CompressionLevel> for i16 {
    open spec fn obeys_from_spec() -> bool {
        true
    }

    open spec fn from_spec(value: CompressionLevel) -> i16 {
        value.code() as i16
    }
}

impl From<CompressionLevel> for u32 {
    /// The numeric code of the level, as `u32`.
    fn from(value: CompressionLevel) -> (code: u32)
        ensures
            code == value.code(),
    {
        u8::from(value) as u32
    }
}

impl FromSpecImpl<CompressionLevel> for u32 {
    open spec fn obeys_from_spec() -> bool {
        true
    }

    open spec fn from_spec(value: CompressionLevel) -> u32 {
        value.code() as u32
    }
}

impl From<CompressionLevel> for i32 {
    /// The numeric code of the level, as `i32`.
    fn from(value: CompressionLevel) -> (code: i32)
        ensures
            code == value.code(),
    {
        u8::from(value) as i32
    }
}

impl FromSpecImpl<CompressionLevel> for i32 {
    open spec fn obeys_from_spec() -> bool {
        true
    }

    open spec fn from_spec(value: CompressionLevel) -> i32 {
        value.code() as i32
    }
}

impl From<CompressionLevel> for u64 {
    /// The numeric code of the level, as `u64`.
    fn from(value: CompressionLevel) -> (code: u64)
        ensures
            code == value.code(),
    {
        u8::from(value) as u64
    }
}

impl FromSpecImpl<CompressionLevel> for u64 {
    open spec fn obeys_from_spec() -> bool {
        true
    }

    open spec fn from_spec(value: CompressionLevel) -> u64 {
        value.code() as u64
    }
}

impl From<CompressionLevel> for i64 {
    /// The numeric code of the level, as `i64`.
    fn from(value: CompressionLevel) -> (code: i64)
        ensures
            code == value.code(),
    {
        u8::from(value) as i64
    }
}

impl FromSpecImpl<CompressionLevel> for i64 {
    open spec fn obeys_from_spec() -> bool {
        true
    }

    open spec fn from_spec(value: CompressionLevel) -> i64 {
        value.code() as i64
    }
}

impl From<CompressionLevel> for usize {
    /// The numeric code of the level, as `usize`.
    fn from(value: CompressionLevel) -> (code: usize)
        ensures
            code == value.code(),
    {
        u8::from(value) as usize
    }
}

impl FromSpecImpl<CompressionLevel> for usize {
    open spec fn obeys_from_spec() -> bool {
        true
    }

    open spec fn from_spec(value: CompressionLevel) -> usize {
        value.code() as usize
    }
}

impl From<CompressionLevel> for isize {
    /// The numeric code of the level, as `isize`.
    fn from(value: CompressionLevel) -> (code: isize)
        ensures
            code == value.code(),
    {
        u8::from(value) as isize
    }
}

impl FromSpecImpl<CompressionLevel> for isize {
    open spec fn obeys_from_spec() -> bool {
        true
    }

    open spec fn from_spec(value: CompressionLevel) -> isize {
        value.code() as isize
    }
}

// The code out of the wider integer types.
impl TryFrom<i8> for CompressionLevel {
    type Error = Error;

    /// The level whose code is `value`; an error that holds `value` as a
    /// `usize` if it is the code of no level.
    fn try_from(value: i8) -> (r: Result<Self, Error>)
        ensures
            r == Self::from_int(value as i128),
    {
        CompressionLevel::try_from_int(value as i128)
    }
}

impl TryFromSpecImpl<i8> for CompressionLevel {
    open spec fn obeys_try_from_spec() -> bool {
        true
    }

    open spec fn try_from_spec(value: i8) -> Result<Self, Error> {
        Self::from_int(value as i128)
    }
}

impl TryFrom<u16> for CompressionLevel {
    type Error = Error;

    /// The level whose code is `value`; an error that holds `value` as a
    /// `usize` if it is the code of no level.
    fn try_from(value: u16) -> (r: Result<Self, Error>)
        ensures
            r == Self::from_int(value as i128),
    {
        CompressionLevel::try_from_int(value as i128)
    }
}

impl TryFromSpecImpl<u16> for CompressionLevel {
    open spec fn obeys_try_from_spec() -> bool {
        true
    }

    open spec fn try_from_spec(value: u16) -> Result<Self, Error> {
        Self::from_int(value as i128)
    }
}

impl TryFrom<i16> for CompressionLevel {
    type Error = Error;

    /// The level whose code is `value`; an error that holds `value` as a
    /// `usize` if it is the code of no level.
    fn try_from(value: i16) -> (r: Result<Self, Error>)
        ensures
            r == Self::from_int(value as i128),
    {
        CompressionLevel::try_from_int(value as i128)
    }
}

impl TryFromSpecImpl<i16> for CompressionLevel {
    open spec fn obeys_try_from_spec() -> bool {
        true
    }

    open spec fn try_from_spec(value: i16) -> Result<Self, Error> {
        Self::from_int(value as i128)
    }
}

impl TryFrom<u32> for CompressionLevel {
    type Error = Error;

    /// The level whose code is `value`; an error that holds `value` as a
    /// `usize` if it is the code of no level.
    fn try_from(value: u32) -> (r: Result<Self, Error>)
        ensures
            r == Self::from_int(value as i128),
    {
        CompressionLevel::try_from_int(value as i128)
    }
}

impl TryFromSpecImpl<u32> for CompressionLevel {
    open spec fn obeys_try_from_spec() -> bool {
        true
    }

    open spec fn try_from_spec(value: u32) -> Result<Self, Error> {
        Self::from_int(value as i128)
    }
}

impl TryFrom<i32> for CompressionLevel {
    type Error = Error;

    /// The level whose code is `value`; an error that holds `value` as a
    /// `usize` if it is the code of no level.
    fn try_from(value: i32) -> (r: Result<Self, Error>)
        ensures
            r == Self::from_int(value as i128),
    {
        CompressionLevel::try_from_int(value as i128)
    }
}

impl TryFromSpecImpl<i32> for CompressionLevel {
    open spec fn obeys_try_from_spec() -> bool {
        true
    }

    open spec fn try_from_spec(value: i32) -> Result<Self, Error> {
        Self::from_int(value as i128)
    }
}

impl TryFrom<u64> for CompressionLevel {
    type Error = Error;

    /// The level whose code is `value`; an error that holds `value` as a
    /// `usize` if it is the code of no level.
    fn try_from(value: u64) -> (r: Result<Self, Error>)
        ensures
            r == Self::from_int(value as i128),
    {
        CompressionLevel::try_from_int(value as i128)
    }
}

impl TryFromSpecImpl<u64> for CompressionLevel {
    open spec fn obeys_try_from_spec() -> bool {
        true
    }

    open spec fn try_from_spec(value: u64) -> Result<Self, Error> {
        Self::from_int(value as i128)
    }
}

impl TryFrom<i64> for CompressionLevel {
    type Error = Error;

    /// The level whose code is `value`; an error that holds `value` as a
    /// `usize` if it is the code of no level.
    fn try_from(value: i64) -> (r: Result<Self, Error>)
        ensures
            r == Self::from_int(value as i128),
    {
        CompressionLevel::try_from_int(value as i128)
    }
}

impl TryFromSpecImpl<i64> for CompressionLevel {
    open spec fn obeys_try_from_spec() -> bool {
        true
    }

    open spec fn try_from_spec(value: i64) -> Result<Self, Error> {
        Self::from_int(value as i128)
    }
}

impl TryFrom<usize> for CompressionLevel {
    type Error = Error;

    /// The level whose code is `value`; an error that holds `value` as a
    /// `usize` if it is the code of no level.
    fn try_from(value: usize) -> (r: Result<Self, Error>)
        ensures
            r == Self::from_int(value as i128),
    {
        CompressionLevel::try_from_int(value as i128)
    }
}

impl TryFromSpecImpl<usize> for CompressionLevel {
    open spec fn obeys_try_from_spec() -> bool {
        true
    }

    open spec fn try_from_spec(value: usize) -> Result<Self, Error> {
        Self::from_int(value as i128)
    }
}

impl TryFrom<isize> for CompressionLevel {
    type Error = Error;

    /// The level whose code is `value`; an error that holds `value` as a
    /// `usize` if it is the code of no level.
    fn try_from(value: isize) -> (r: Result<Self, Error>)
        ensures
            r == Self::from_int(value as i128),
    {
        CompressionLevel::try_from_int(value as i128)
    }
}

impl TryFromSpecImpl<isize> for CompressionLevel {
    open spec fn obeys_try_from_spec() -> bool {
        true
    }

    open spec fn try_from_spec(value: isize) -> Result<Self, Error> {
        Self::from_int(value as i128)
    }
}

} // verus!
