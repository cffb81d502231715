//! The decryption noise mode.

use crate::error::Error;
use crate::fhe_core::text::{quoted, same_text};
use std::str::FromStr;
use vstd::prelude::*;
use vstd::std_specs::convert::{FromSpecImpl, TryFromSpecImpl};

verus! {

/// Decryption noise mode.
#[derive(Debug, Clone, Copy, PartialEq, Eq, Structural)]
pub enum DecryptionNoiseMode {
    /// Decryption with noise of a fixed size.
    FixedNoiseDecrypt,
    /// Decryption with noise flooding.
    NoiseFloodingDecrypt,
}

impl DecryptionNoiseMode {
    /// The numeric code of a mode, as it goes on the wire.
    pub open spec fn code(self) -> u8 {
        match self {
            DecryptionNoiseMode::FixedNoiseDecrypt => 0,
            DecryptionNoiseMode::NoiseFloodingDecrypt => 1,
        }
    }

    /// The name of a mode, as it is displayed.
    pub open spec fn name(self) -> Seq<char> {
        match self {
            DecryptionNoiseMode::FixedNoiseDecrypt => "FixedNoiseDecrypt"@,
            DecryptionNoiseMode::NoiseFloodingDecrypt => "NoiseFloodingDecrypt"@,
        }
    }

    /// The mode that a number is the code of; the error that holds the number
    /// if it is the code of none.
    pub open spec fn from_code(value: u8) -> Result<Self, Error> {
        if value == 0 {
            Ok(DecryptionNoiseMode::FixedNoiseDecrypt)
        } else if value == 1 {
            Ok(DecryptionNoiseMode::NoiseFloodingDecrypt)
        } else {
            Err(Error::InvalidDecryptionNoiseMode(value as usize))
        }
    }

    /// The mode that an integer of any width is the code of; the error that
    /// holds the integer, cut to the width of `usize`, if it is the code of
    /// none.
    pub open spec fn from_int(value: i128) -> Result<Self, Error> {
        if 0 <= value <= 255 {
            Self::from_code(value as u8)
        } else {
            Err(Error::InvalidDecryptionNoiseMode(value as usize))
        }
    }

    /// The mode that a text names, if any.
    pub open spec fn named(text: Seq<char>) -> Option<Self> {
        if text == "FixedNoiseDecrypt"@ {
            Some(DecryptionNoiseMode::FixedNoiseDecrypt)
        } else if text == "NoiseFloodingDecrypt"@ {
            Some(DecryptionNoiseMode::NoiseFloodingDecrypt)
        } else {
            None
        }
    }

    /// The message of the error for a text that names no mode.
    pub open spec fn unknown_name(text: Seq<char>) -> Seq<char> {
        "invalid string when parsing DecryptionNoiseMode: '"@ + text + "'"@
    }

    /// The name of the mode.
    pub fn to_string(&self) -> (text: String)
        ensures
            text@ == self.name(),
    {
        match self {
            DecryptionNoiseMode::FixedNoiseDecrypt => "FixedNoiseDecrypt".to_owned(),
            DecryptionNoiseMode::NoiseFloodingDecrypt => "NoiseFloodingDecrypt".to_owned(),
        }
    }

    /// The mode whose code is `value`, for a code held in an integer of any
    /// width. A value that is no code comes back in the error, cut to the
    /// width of `usize`.
    pub fn try_from_int(value: i128) -> (r: Result<Self, Error>)
        ensures
            r == Self::from_int(value),
    {
        if 0 <= value && value <= 255 {
            DecryptionNoiseMode::try_from(value as u8)
        } else {
            Err(Error::InvalidDecryptionNoiseMode(#[verifier::truncate] (value as usize)))
        }
    }

    /// The code of every mode converts back to the mode.
    pub proof fn lemma_code_round_trip(value: Self)
        ensures
            Self::from_code(value.code()) == Ok::<Self, Error>(value),
            Self::from_int(value.code() as i128) == Ok::<Self, Error>(value),
    {
    }

    /// The name of every mode parses back to the mode.
    pub proof fn lemma_name_round_trip(value: Self)
        ensures
            Self::named(value.name()) == Some(value),
    {
        Self::lemma_names_differ();
        assert(DecryptionNoiseMode::FixedNoiseDecrypt.name() == "FixedNoiseDecrypt"@);
        assert(DecryptionNoiseMode::NoiseFloodingDecrypt.name() == "NoiseFloodingDecrypt"@);
    }

    /// A number converts to a mode only if it is the code of that mode; any
    /// other number is rejected with an error that holds it.
    pub proof fn lemma_only_codes_convert(code: u8)
        ensures
            match Self::from_code(code) {
                Ok(value) => value.code() == code,
                Err(e) => {
                    &&& e == Error::InvalidDecryptionNoiseMode(code as usize)
                    &&& forall|value: Self| #[trigger] value.code() != code
                },
            },
    {
    }

    /// A text parses to a mode only if it is the name of that mode; any other
    /// text is rejected.
    pub proof fn lemma_only_names_parse(text: Seq<char>)
        ensures
            match Self::named(text) {
                Some(value) => value.name() == text,
                None => forall|value: Self| #[trigger] value.name() != text,
            },
    {
    }

    /// No two modes have the same name.
    proof fn lemma_names_differ()
        ensures
            forall|x: Self, y: Self| #[trigger] x.name() == #[trigger] y.name() ==> x == y,
    {
        reveal_strlit("FixedNoiseDecrypt");
        reveal_strlit("NoiseFloodingDecrypt");
        assert forall|x: Self, y: Self| #[trigger] x.name() == #[trigger] y.name() implies x
            == y by {
            assert(x.name().len() == y.name().len());
        }
    }
}

impl TryFrom<u8> for DecryptionNoiseMode {
    type Error = Error;

    /// The mode whose code is `value`; an error that holds `value` if it is
    /// the code of no mode.
    fn try_from(value: u8) -> (r: Result<Self, Error>)
        ensures
            r == Self::from_code(value),
    {
        match value {
            0 => Ok(DecryptionNoiseMode::FixedNoiseDecrypt),
            1 => Ok(DecryptionNoiseMode::NoiseFloodingDecrypt),
            _ => Err(Error::InvalidDecryptionNoiseMode(value as usize)),
        }
    }
}

impl TryFromSpecImpl<u8> for DecryptionNoiseMode {
    open spec fn obeys_try_from_spec() -> bool {
        true
    }

    open spec fn try_from_spec(value: u8) -> Result<Self, Error> {
        Self::from_code(value)
    }
}

impl From<DecryptionNoiseMode> for u8 {
    /// The numeric code of the mode.
    fn from(value: DecryptionNoiseMode) -> (code: u8)
        ensures
            code == value.code(),
    {
        match value {
            DecryptionNoiseMode::FixedNoiseDecrypt => 0,
            DecryptionNoiseMode::NoiseFloodingDecrypt => 1,
        }
    }
}

impl FromSpecImpl<DecryptionNoiseMode> for u8 {
    open spec fn obeys_from_spec() -> bool {
        true
    }

    open spec fn from_spec(value: DecryptionNoiseMode) -> u8 {
        value.code()
    }
}

impl FromStr for DecryptionNoiseMode {
    type Err = Error;

    /// The mode that `s` names; an error whose message quotes `s` if it names
    /// none.
    fn from_str(s: &str) -> (r: Result<Self, Error>)
        ensures
            match Self::named(s@) {
                Some(value) => r == Ok::<Self, Error>(value),
                None => {
                    &&& r matches Err(Error::ParseError(message))
                    &&& message@ == Self::unknown_name(s@)
                },
            },
    {
        if same_text(s, "FixedNoiseDecrypt") {
            Ok(DecryptionNoiseMode::FixedNoiseDecrypt)
        } else if same_text(s, "NoiseFloodingDecrypt") {
            Ok(DecryptionNoiseMode::NoiseFloodingDecrypt)
        } else {
            Err(
                Error::ParseError(
                    quoted(
                        "invalid string when parsing DecryptionNoiseMode: '",
                        s,
                        "'",
                    ),
                ),
            )
        }
    }
}

impl Default for DecryptionNoiseMode {
    /// `FixedNoiseDecrypt`.
    fn default() -> (value: Self)
        ensures
            value == DecryptionNoiseMode::FixedNoiseDecrypt,
    {
        DecryptionNoiseMode::FixedNoiseDecrypt
    }
}

// The code in the wider integer types.
impl From<DecryptionNoiseMode> for i8 {
    /// The numeric code of the mode, as `i8`.
    fn from(value: DecryptionNoiseMode) -> (code: i8)
        ensures
            code == value.code(),
    {
        u8::from(value) as i8
    }
}

impl FromSpecImpl<DecryptionNoiseMode> for i8 {
    open spec fn obeys_from_spec() -> bool {
        true
    }

    open spec fn from_spec(value: DecryptionNoiseMode) -> i8 {
        value.code() as i8
    }
}

impl From<DecryptionNoiseMode> for u16 {
    /// The numeric code of the mode, as `u16`.
    fn from(value: DecryptionNoiseMode) -> (code: u16)
        ensures
            code == value.code(),
    {
        u8::from(value) as u16
    }
}

impl FromSpecImpl<DecryptionNoiseMode> for u16 {
    open spec fn obeys_from_spec() -> bool {
        true
    }

    open spec fn from_spec(value: DecryptionNoiseMode) -> u16 {
        value.code() as u16
    }
}

impl From<DecryptionNoiseMode> for i16 {
    /// The numeric code of the mode, as `i16`.
    fn from(value: DecryptionNoiseMode) -> (code: i16)
        ensures
            code == value.code(),
    {
        u8::from(value) as i16
    }
}

impl FromSpecImpl<DecryptionNoiseMode> for i16 {
    open spec fn obeys_from_spec() -> bool {
        true
    }

    open spec fn from_spec(value: DecryptionNoiseMode) -> i16 {
        value.code() as i16
    }
}

impl From<DecryptionNoiseMode> for u32 {
    /// The numeric code of the mode, as `u32`.
    fn from(value: DecryptionNoiseMode) -> (code: u32)
        ensures
            code == value.code(),
    {
        u8::from(value) as u32
    }
}

impl FromSpecImpl<DecryptionNoiseMode> for u32 {
    open spec fn obeys_from_spec() -> bool {
        true
    }

    open spec fn from_spec(value: DecryptionNoiseMode) -> u32 {
        value.code() as u32
    }
}

impl From<DecryptionNoiseMode> for i32 {
    /// The numeric code of the mode, as `i32`.
    fn from(value: DecryptionNoiseMode) -> (code: i32)
        ensures
            code == value.code(),
    {
        u8::from(value) as i32
    }
}

impl FromSpecImpl<DecryptionNoiseMode> for i32 {
    open spec fn obeys_from_spec() -> bool {
        true
    }

    open spec fn from_spec(value: DecryptionNoiseMode) -> i32 {
        value.code() as i32
    }
}

impl From<DecryptionNoiseMode> for u64 {
    /// The numeric code of the mode, as `u64`.
    fn from(value: DecryptionNoiseMode) -> (code: u64)
        ensures
            code == value.code(),
    {
        u8::from(value) as u64
    }
}

impl FromSpecImpl<DecryptionNoiseMode> for u64 {
    open spec fn obeys_from_spec() -> bool {
        true
    }

    open spec fn from_spec(value: DecryptionNoiseMode) -> u64 {
        value.code() as u64
    }
}

impl From<DecryptionNoiseMode> for i64 {
    /// The numeric code of the mode, as `i64`.
    fn from(value: DecryptionNoiseMode) -> (code: i64)
        ensures
            code == value.code(),
    {
        u8::from(value) as i64
    }
}

impl FromSpecImpl<DecryptionNoiseMode> for i64 {
    open spec fn obeys_from_spec() -> bool {
        true
    }

    open spec fn from_spec(value: DecryptionNoiseMode) -> i64 {
        value.code() as i64
    }
}

impl From<DecryptionNoiseMode> for usize {
    /// The numeric code of the mode, as `usize`.
    fn from(value: DecryptionNoiseMode) -> (code: usize)
        ensures
            code == value.code(),
    {
        u8::from(value) as usize
    }
}

impl FromSpecImpl<DecryptionNoiseMode> for usize {
    open spec fn obeys_from_spec() -> bool {
        true
    }

    open spec fn from_spec(value: DecryptionNoiseMode) -> usize {
        value.code() as usize
    }
}

impl From<DecryptionNoiseMode> for isize {
    /// The numeric code of the mode, as `isize`.
    fn from(value: DecryptionNoiseMode) -> (code: isize)
        ensures
            code == value.code(),
    {
        u8::from(value) as isize
    }
}

impl FromSpecImpl<DecryptionNoiseMode> for isize {
    open spec fn obeys_from_spec() -> bool {
        true
    }

    open spec fn from_spec(value: DecryptionNoiseMode) -> isize {
        value.code() as isize
    }
}

// The code out of the wider integer types.
impl TryFrom<i8> for DecryptionNoiseMode {
    type Error = Error;

    /// The mode whose code is `value`; an error that holds `value` as a
    /// `usize` if it is the code of no mode.
    fn try_from(value: i8) -> (r: Result<Self, Error>)
        ensures
            r == Self::from_int(value as i128),
    {
        DecryptionNoiseMode::try_from_int(value as i128)
    }
}

impl TryFromSpecImpl<i8> for DecryptionNoiseMode {
    open spec fn obeys_try_from_spec() -> bool {
        true
    }

    open spec fn try_from_spec(value: i8) -> Result<Self, Error> {
        Self::from_int(value as i128)
    }
}

impl TryFrom<u16> for DecryptionNoiseMode {
    type Error = Error;

    /// The mode whose code is `value`; an error that holds `value` as a
    /// `usize` if it is the code of no mode.
    fn try_from(value: u16) -> (r: Result<Self, Error>)
        ensures
            r == Self::from_int(value as i128),
    {
        DecryptionNoiseMode::try_from_int(value as i128)
    }
}

impl TryFromSpecImpl<u16> for DecryptionNoiseMode {
    open spec fn obeys_try_from_spec() -> bool {
        true
    }

    open spec fn try_from_spec(value: u16) -> Result<Self, Error> {
        Self::from_int(value as i128)
    }
}

impl TryFrom<i16> for DecryptionNoiseMode {
    type Error = Error;

    /// The mode whose code is `value`; an error that holds `value` as a
    /// `usize` if it is the code of no mode.
    fn try_from(value: i16) -> (r: Result<Self, Error>)
        ensures
            r == Self::from_int(value as i128),
    {
        DecryptionNoiseMode::try_from_int(value as i128)
    }
}

impl TryFromSpecImpl<i16> for DecryptionNoiseMode {
    open spec fn obeys_try_from_spec() -> bool {
        true
    }

    open spec fn try_from_spec(value: i16) -> Result<Self, Error> {
        Self::from_int(value as i128)
    }
}

impl TryFrom<u32> for DecryptionNoiseMode {
    type Error = Error;

    /// The mode whose code is `value`; an error that holds `value` as a
    /// `usize` if it is the code of no mode.
    fn try_from(value: u32) -> (r: Result<Self, Error>)
        ensures
            r == Self::from_int(value as i128),
    {
        DecryptionNoiseMode::try_from_int(value as i128)
    }
}

impl TryFromSpecImpl<u32> for DecryptionNoiseMode {
    open spec fn obeys_try_from_spec() -> bool {
        true
    }

    open spec fn try_from_spec(value: u32) -> Result<Self, Error> {
        Self::from_int(value as i128)
    }
}

impl TryFrom<i32> for DecryptionNoiseMode {
    type Error = Error;

    /// The mode whose code is `value`; an error that holds `value` as a
    /// `usize` if it is the code of no mode.
    fn try_from(value: i32) -> (r: Result<Self, Error>)
        ensures
            r == Self::from_int(value as i128),
    {
        DecryptionNoiseMode::try_from_int(value as i128)
    }
}

impl TryFromSpecImpl<i32> for DecryptionNoiseMode {
    open spec fn obeys_try_from_spec() -> bool {
        true
    }

    open spec fn try_from_spec(value: i32) -> Result<Self, Error> {
        Self::from_int(value as i128)
    }
}

impl TryFrom<u64> for DecryptionNoiseMode {
    type Error = Error;

    /// The mode whose code is `value`; an error that holds `value` as a
    /// `usize` if it is the code of no mode.
    fn try_from(value: u64) -> (r: Result<Self, Error>)
        ensures
            r == Self::from_int(value as i128),
    {
        DecryptionNoiseMode::try_from_int(value as i128)
    }
}

impl TryFromSpecImpl<u64> for DecryptionNoiseMode {
    open spec fn obeys_try_from_spec() -> bool {
        true
    }

    open spec fn try_from_spec(value: u64) -> Result<Self, Error> {
        Self::from_int(value as i128)
    }
}

impl TryFrom<i64> for DecryptionNoiseMode {
    type Error = Error;

    /// The mode whose code is `value`; an error that holds `value` as a
    /// `usize` if it is the code of no mode.
    fn try_from(value: i64) -> (r: Result<Self, Error>)
        ensures
            r == Self::from_int(value as i128),
    {
        DecryptionNoiseMode::try_from_int(value as i128)
    }
}

impl TryFromSpecImpl<i64> for DecryptionNoiseMode {
    open spec fn obeys_try_from_spec() -> bool {
        true
    }

    open spec fn try_from_spec(value: i64) -> Result<Self, Error> {
        Self::from_int(value as i128)
    }
}

impl TryFrom<usize> for DecryptionNoiseMode {
    type Error = Error;

    /// The mode whose code is `value`; an error that holds `value` as a
    /// `usize` if it is the code of no mode.
    fn try_from(value: usize) -> (r: Result<Self, Error>)
        ensures
            r == Self::from_int(value as i128),
    {
        DecryptionNoiseMode::try_from_int(value as i128)
    }
}

impl TryFromSpecImpl<usize> for DecryptionNoiseMode {
    open spec fn obeys_try_from_spec() -> bool {
        true
    }

    open spec fn try_from_spec(value: usize) -> Result<Self, Error> {
        Self::from_int(value as i128)
    }
}

impl TryFrom<isize> for DecryptionNoiseMode {
    type Error = Error;

    /// The mode whose code is `value`; an error that holds `value` as a
    /// `usize` if it is the code of no mode.
    fn try_from(value: isize) -> (r: Result<Self, Error>)
        ensures
            r == Self::from_int(value as i128),
    {
        DecryptionNoiseMode::try_from_int(value as i128)
    }
}

impl TryFromSpecImpl<isize> for DecryptionNoiseMode {
    open spec fn obeys_try_from_spec() -> bool {
        true
    }

    open spec fn try_from_spec(value: isize) -> Result<Self, Error> {
        Self::from_int(value as i128)
    }
}

} // verus!
