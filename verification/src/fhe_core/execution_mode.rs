//! The execution mode.

use crate::error::Error;
use crate::fhe_core::text::{quoted, same_text};
use std::str::FromStr;
use vstd::prelude::*;
use vstd::std_specs::convert::{FromSpecImpl, TryFromSpecImpl};

verus! {

/// Execution mode for the FHE scheme.
#[derive(Debug, Clone, Copy, PartialEq, Eq, Structural)]
pub enum ExecutionMode {
    /// Evaluation of the circuit.
    Evaluation,
    /// Estimation of the noise.
    NoiseEstimation,
}

impl ExecutionMode {
    /// The numeric code of a mode, as it goes on the wire.
    pub open spec fn code(self) -> u8 {
        match self {
            ExecutionMode::Evaluation => 0,
            ExecutionMode::NoiseEstimation => 1,
        }
    }

    /// The name of a mode, as it is displayed.
    pub open spec fn name(self) -> Seq<char> {
        match self {
            ExecutionMode::Evaluation => "Evaluation"@,
            ExecutionMode::NoiseEstimation => "NoiseEstimation"@,
        }
    }

    /// The mode that a number is the code of; the error that holds the number
    /// if it is the code of none.
    pub open spec fn from_code(value: u8) -> Result<Self, Error> {
        if value == 0 {
            Ok(ExecutionMode::Evaluation)
        } else if value == 1 {
            Ok(ExecutionMode::NoiseEstimation)
        } else {
            Err(Error::InvalidExecutionMode(value as usize))
        }
    }

    /// The mode that an integer of any width is the code of; the error that
    /// holds the integer, cut to the width of `usize`, if it is the code of
    /// none.
    pub open spec fn from_int(value: i128) -> Result<Self, Error> {
        if 0 <= value <= 255 {
            Self::from_code(value as u8)
        } else {
            Err(Error::InvalidExecutionMode(value as usize))
        }
    }

    /// The mode that a text names, if any.
    pub open spec fn named(text: Seq<char>) -> Option<Self> {
        if text == "Evaluation"@ {
            Some(ExecutionMode::Evaluation)
        } else if text == "NoiseEstimation"@ {
            Some(ExecutionMode::NoiseEstimation)
        } else {
            None
        }
    }

    /// The message of the error for a text that names no mode.
    pub open spec fn unknown_name(text: Seq<char>) -> Seq<char> {
        "invalid string when parsing ExecutionMode: '"@ + text + "'"@
    }

    /// The name of the mode.
    pub fn to_string(&self) -> (text: String)
        ensures
            text@ == self.name(),
    {
        match self {
            ExecutionMode::Evaluation => "Evaluation".to_owned(),
            ExecutionMode::NoiseEstimation => "NoiseEstimation".to_owned(),
        }
    }

    /// The mode whose code is `value`, for a code held in an integer of any
    /// width. A value that is no code comes back in the error, cut to the
    /// width of `usize`.
    pub fn try_from_int(value: i128) -> (r: Result<Self, Error>)
        ensures
            r == Self::from_int(value),
    {
        if 0 <= value && value <= 255 {
            ExecutionMode::try_from(value as u8)
        } else {
            Err(Error::InvalidExecutionMode(#[verifier::truncate] (value as usize)))
        }
    }

    /// The code of every mode converts back to the mode.
    pub proof fn lemma_code_round_trip(value: Self)
        ensures
            Self::from_code(value.code()) == Ok::<Self, Error>(value),
            Self::from_int(value.code() as i128) == Ok::<Self, Error>(value),
    {
    }

    /// The name of every mode parses back to the mode.
    pub proof fn lemma_name_round_trip(value: Self)
        ensures
            Self::named(value.name()) == Some(value),
    {
        Self::lemma_names_differ();
        assert(ExecutionMode::Evaluation.name() == "Evaluation"@);
        assert(ExecutionMode::NoiseEstimation.name() == "NoiseEstimation"@);
    }

    /// A number converts to a mode only if it is the code of that mode; any
    /// other number is rejected with an error that holds it.
    pub proof fn lemma_only_codes_convert(code: u8)
        ensures
            match Self::from_code(code) {
                Ok(value) => value.code() == code,
                Err(e) => {
                    &&& e == Error::InvalidExecutionMode(code as usize)
                    &&& forall|value: Self| #[trigger] value.code() != code
                },
            },
    {
    }

    /// A text parses to a mode only if it is the name of that mode; any other
    /// text is rejected.
    pub proof fn lemma_only_names_parse(text: Seq<char>)
        ensures
            match Self::named(text) {
                Some(value) => value.name() == text,
                None => forall|value: Self| #[trigger] value.name() != text,
            },
    {
    }

    /// No two modes have the same name.
    proof fn lemma_names_differ()
        ensures
            forall|x: Self, y: Self| #[trigger] x.name() == #[trigger] y.name() ==> x == y,
    {
        reveal_strlit("Evaluation");
        reveal_strlit("NoiseEstimation");
        assert forall|x: Self, y: Self| #[trigger] x.name() == #[trigger] y.name() implies x
            == y by {
            assert(x.name().len() == y.name().len());
        }
    }
}

impl TryFrom<u8> for ExecutionMode {
    type Error = Error;

    /// The mode whose code is `value`; an error that holds `value` if it is
    /// the code of no mode.
    fn try_from(value: u8) -> (r: Result<Self, Error>)
        ensures
            r == Self::from_code(value),
    {
        match value {
            0 => Ok(ExecutionMode::Evaluation),
            1 => Ok(ExecutionMode::NoiseEstimation),
            _ => Err(Error::InvalidExecutionMode(value as usize)),
        }
    }
}

impl TryFromSpecImpl<u8> for ExecutionMode {
    open spec fn obeys_try_from_spec() -> bool {
        true
    }

    open spec fn try_from_spec(value: u8) -> Result<Self, Error> {
        Self::from_code(value)
    }
}

impl From<ExecutionMode> for u8 {
    /// The numeric code of the mode.
    fn from(value: ExecutionMode) -> (code: u8)
        ensures
            code == value.code(),
    {
        match value {
            ExecutionMode::Evaluation => 0,
            ExecutionMode::NoiseEstimation => 1,
        }
    }
}

impl FromSpecImpl<ExecutionMode> for u8 {
    open spec fn obeys_from_spec() -> bool {
        true
    }

    open spec fn from_spec(value: ExecutionMode) -> u8 {
        value.code()
    }
}

impl FromStr for ExecutionMode {
    type Err = Error;

    /// The mode that `s` names; an error whose message quotes `s` if it names
    /// none.
    fn from_str(s: &str) -> (r: Result<Self, Error>)
        ensures
            match Self::named(s@) {
                Some(value) => r == Ok::<Self, Error>(value),
                None => {
                    &&& r matches Err(Error::ParseError(message))
                    &&& message@ == Self::unknown_name(s@)
                },
            },
    {
        if same_text(s, "Evaluation") {
            Ok(ExecutionMode::Evaluation)
        } else if same_text(s, "NoiseEstimation") {
            Ok(ExecutionMode::NoiseEstimation)
        } else {
            Err(Error::ParseError(quoted("invalid string when parsing ExecutionMode: '", s, "'")))
        }
    }
}

// The code in the wider integer types.
impl From<ExecutionMode> for i8 {
    /// The numeric code of the mode, as `i8`.
    fn from(value: ExecutionMode) -> (code: i8)
        ensures
            code == value.code(),
    {
        u8::from(value) as i8
    }
}

impl FromSpecImpl<ExecutionMode> for i8 {
    open spec fn obeys_from_spec() -> bool {
        true
    }

    open spec fn from_spec(value: ExecutionMode) -> i8 {
        value.code() as i8
    }
}

impl From<ExecutionMode> for u16 {
    /// The numeric code of the mode, as `u16`.
    fn from(value: ExecutionMode) -> (code: u16)
        ensures
            code == value.code(),
    {
        u8::from(value) as u16
    }
}

impl FromSpecImpl<ExecutionMode> for u16 {
    open spec fn obeys_from_spec() -> bool {
        true
    }

    open spec fn from_spec(value: ExecutionMode) -> u16 {
        value.code() as u16
    }
}

impl From<ExecutionMode> for i16 {
    /// The numeric code of the mode, as `i16`.
    fn from(value: ExecutionMode) -> (code: i16)
        ensures
            code == value.code(),
    {
        u8::from(value) as i16
    }
}

impl FromSpecImpl<ExecutionMode> for i16 {
    open spec fn obeys_from_spec() -> bool {
        true
    }

    open spec fn from_spec(value: ExecutionMode) -> i16 {
        value.code() as i16
    }
}

impl From<ExecutionMode> for u32 {
    /// The numeric code of the mode, as `u32`.
    fn from(value: ExecutionMode) -> (code: u32)
        ensures
            code == value.code(),
    {
        u8::from(value) as u32
    }
}

impl FromSpecImpl<ExecutionMode> for u32 {
    open spec fn obeys_from_spec() -> bool {
        true
    }

    open spec fn from_spec(value: ExecutionMode) -> u32 {
        value.code() as u32
    }
}

impl From<ExecutionMode> for i32 {
    /// The numeric code of the mode, as `i32`.
    fn from(value: ExecutionMode) -> (code: i32)
        ensures
            code == value.code(),
    {
        u8::from(value) as i32
    }
}

impl FromSpecImpl<ExecutionMode> for i32 {
    open spec fn obeys_from_spec() -> bool {
        true
    }

    open spec fn from_spec(value: ExecutionMode) -> i32 {
        value.code() as i32
    }
}

impl From<ExecutionMode> for u64 {
    /// The numeric code of the mode, as `u64`.
    fn from(value: ExecutionMode) -> (code: u64)
        ensures
            code == value.code(),
    {
        u8::from(value) as u64
    }
}

impl FromSpecImpl<ExecutionMode> for u64 {
    open spec fn obeys_from_spec() -> bool {
        true
    }

    open spec fn from_spec(value: ExecutionMode) -> u64 {
        value.code() as u64
    }
}

impl From<ExecutionMode> for i64 {
    /// The numeric code of the mode, as `i64`.
    fn from(value: ExecutionMode) -> (code: i64)
        ensures
            code == value.code(),
    {
        u8::from(value) as i64
    }
}

impl FromSpecImpl<ExecutionMode> for i64 {
    open spec fn obeys_from_spec() -> bool {
        true
    }

    open spec fn from_spec(value: ExecutionMode) -> i64 {
        value.code() as i64
    }
}

impl From<ExecutionMode> for usize {
    /// The numeric code of the mode, as `usize`.
    fn from(value: ExecutionMode) -> (code: usize)
        ensures
            code == value.code(),
    {
        u8::from(value) as usize
    }
}

impl FromSpecImpl<ExecutionMode> for usize {
    open spec fn obeys_from_spec() -> bool {
        true
    }

    open spec fn from_spec(value: ExecutionMode) -> usize {
        value.code() as usize
    }
}

impl From<ExecutionMode> for isize {
    /// The numeric code of the mode, as `isize`.
    fn from(value: ExecutionMode) -> (code: isize)
        ensures
            code == value.code(),
    {
        u8::from(value) as isize
    }
}

impl FromSpecImpl<ExecutionMode> for isize {
    open spec fn obeys_from_spec() -> bool {
        true
    }

    open spec fn from_spec(value: ExecutionMode) -> isize {
        value.code() as isize
    }
}

// The code out of the wider integer types.
impl TryFrom<i8> for ExecutionMode {
    type Error = Error;

    /// The mode whose code is `value`; an error that holds `value` as a
    /// `usize` if it is the code of no mode.
    fn try_from(value: i8) -> (r: Result<Self, Error>)
        ensures
            r == Self::from_int(value as i128),
    {
        ExecutionMode::try_from_int(value as i128)
    }
}

impl TryFromSpecImpl<i8> for ExecutionMode {
    open spec fn obeys_try_from_spec() -> bool {
        true
    }

    open spec fn try_from_spec(value: i8) -> Result<Self, Error> {
        Self::from_int(value as i128)
    }
}

impl TryFrom<u16> for ExecutionMode {
    type Error = Error;

    /// The mode whose code is `value`; an error that holds `value` as a
    /// `usize` if it is the code of no mode.
    fn try_from(value: u16) -> (r: Result<Self, Error>)
        ensures
            r == Self::from_int(value as i128),
    {
        ExecutionMode::try_from_int(value as i128)
    }
}

impl TryFromSpecImpl<u16> for ExecutionMode {
    open spec fn obeys_try_from_spec() -> bool {
        true
    }

    open spec fn try_from_spec(value: u16) -> Result<Self, Error> {
        Self::from_int(value as i128)
    }
}

impl TryFrom<i16> for ExecutionMode {
    type Error = Error;

    /// The mode whose code is `value`; an error that holds `value` as a
    /// `usize` if it is the code of no mode.
    fn try_from(value: i16) -> (r: Result<Self, Error>)
        ensures
            r == Self::from_int(value as i128),
    {
        ExecutionMode::try_from_int(value as i128)
    }
}

impl TryFromSpecImpl<i16> for ExecutionMode {
    open spec fn obeys_try_from_spec() -> bool {
        true
    }

    open spec fn try_from_spec(value: i16) -> Result<Self, Error> {
        Self::from_int(value as i128)
    }
}

impl TryFrom<u32> for ExecutionMode {
    type Error = Error;

    /// The mode whose code is `value`; an error that holds `value` as a
    /// `usize` if it is the code of no mode.
    fn try_from(value: u32) -> (r: Result<Self, Error>)
        ensures
            r == Self::from_int(value as i128),
    {
        ExecutionMode::try_from_int(value as i128)
    }
}

impl TryFromSpecImpl<u32> for ExecutionMode {
    open spec fn obeys_try_from_spec() -> bool {
        true
    }

    open spec fn try_from_spec(value: u32) -> Result<Self, Error> {
        Self::from_int(value as i128)
    }
}

impl TryFrom<i32> for ExecutionMode {
    type Error = Error;

    /// The mode whose code is `value`; an error that holds `value` as a
    /// `usize` if it is the code of no mode.
    fn try_from(value: i32) -> (r: Result<Self, Error>)
        ensures
            r == Self::from_int(value as i128),
    {
        ExecutionMode::try_from_int(value as i128)
    }
}

impl TryFromSpecImpl<i32> for ExecutionMode {
    open spec fn obeys_try_from_spec() -> bool {
        true
    }

    open spec fn try_from_spec(value: i32) -> Result<Self, Error> {
        Self::from_int(value as i128)
    }
}

impl TryFrom<u64> for ExecutionMode {
    type Error = Error;

    /// The mode whose code is `value`; an error that holds `value` as a
    /// `usize` if it is the code of no mode.
    fn try_from(value: u64) -> (r: Result<Self, Error>)
        ensures
            r == Self::from_int(value as i128),
    {
        ExecutionMode::try_from_int(value as i128)
    }
}

impl TryFromSpecImpl<u64> for ExecutionMode {
    open spec fn obeys_try_from_spec() -> bool {
        true
    }

    open spec fn try_from_spec(value: u64) -> Result<Self, Error> {
        Self::from_int(value as i128)
    }
}

impl TryFrom<i64> for ExecutionMode {
    type Error = Error;

    /// The mode whose code is `value`; an error that holds `value` as a
    /// `usize` if it is the code of no mode.
    fn try_from(value: i64) -> (r: Result<Self, Error>)
        ensures
            r == Self::from_int(value as i128),
    {
        ExecutionMode::try_from_int(value as i128)
    }
}

impl TryFromSpecImpl<i64> for ExecutionMode {
    open spec fn obeys_try_from_spec() -> bool {
        true
    }

    open spec fn try_from_spec(value: i64) -> Result<Self, Error> {
        Self::from_int(value as i128)
    }
}

impl TryFrom<usize> for ExecutionMode {
    type Error = Error;

    /// The mode whose code is `value`; an error that holds `value` as a
    /// `usize` if it is the code of no mode.
    fn try_from(value: usize) -> (r: Result<Self, Error>)
        ensures
            r == Self::from_int(value as i128),
    {
        ExecutionMode::try_from_int(value as i128)
    }
}

impl TryFromSpecImpl<usize> for ExecutionMode {
    open spec fn obeys_try_from_spec() -> bool {
        true
    }

    open spec fn try_from_spec(value: usize) -> Result<Self, Error> {
        Self::from_int(value as i128)
    }
}

impl TryFrom<isize> for ExecutionMode {
    type Error = Error;

    /// The mode whose code is `value`; an error that holds `value` as a
    /// `usize` if it is the code of no mode.
    fn try_from(value: isize) -> (r: Result<Self, Error>)
        ensures
            r == Self::from_int(value as i128),
    {
        ExecutionMode::try_from_int(value as i128)
    }
}

impl TryFromSpecImpl<isize> for ExecutionMode {
    open spec fn obeys_try_from_spec() -> bool {
        true
    }

    open spec fn try_from_spec(value: isize) -> Result<Self, Error> {
        Self::from_int(value as i128)
    }
}

} // verus!
