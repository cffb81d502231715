//! The scaling technique.

use crate::error::Error;
use crate::fhe_core::text::{quoted, same_text};
use std::str::FromStr;
use vstd::prelude::*;
use vstd::std_specs::convert::{FromSpecImpl, TryFromSpecImpl};

verus! {

/// The scaling technique.
#[derive(Debug, Clone, Copy, PartialEq, Eq, Structural)]
pub enum ScalingTechnique {
    /// Fixed scaling factor, rescaling by hand.
    FixedManual,
    /// Fixed scaling factor, rescaling by itself.
    FixedAuto,
    /// A scaling factor for each level, rescaling by itself.
    FlexibleAuto,
    /// As `FlexibleAuto`, with one more level.
    FlexibleAutoExt,
    /// No rescaling.
    NoRescale,
    /// No technique is chosen.
    InvalidRsTechnique,
}

impl ScalingTechnique {
    /// The numeric code of a technique, as it goes on the wire.
    pub open spec fn code(self) -> u8 {
        match self {
            ScalingTechnique::FixedManual => 0,
            ScalingTechnique::FixedAuto => 1,
            ScalingTechnique::FlexibleAuto => 2,
            ScalingTechnique::FlexibleAutoExt => 3,
            ScalingTechnique::NoRescale => 4,
            ScalingTechnique::InvalidRsTechnique => 5,
        }
    }

    /// The name of a technique, as it is displayed.
    pub open spec fn name(self) -> Seq<char> {
        match self {
            ScalingTechnique::FixedManual => "FixedManual"@,
            ScalingTechnique::FixedAuto => "FixedAuto"@,
            ScalingTechnique::FlexibleAuto => "FlexibleAuto"@,
            ScalingTechnique::FlexibleAutoExt => "FlexibleAutoExt"@,
            ScalingTechnique::NoRescale => "NoRescale"@,
            ScalingTechnique::InvalidRsTechnique => "InvalidRsTechnique"@,
        }
    }

    /// The technique that a number is the code of; the error that holds the
    /// number if it is the code of none.
    pub open spec fn from_code(value: u8) -> Result<Self, Error> {
        if value == 0 {
            Ok(ScalingTechnique::FixedManual)
        } else if value == 1 {
            Ok(ScalingTechnique::FixedAuto)
        } else if value == 2 {
            Ok(ScalingTechnique::FlexibleAuto)
        } else if value == 3 {
            Ok(ScalingTechnique::FlexibleAutoExt)
        } else if value == 4 {
            Ok(ScalingTechnique::NoRescale)
        } else if value == 5 {
            Ok(ScalingTechnique::InvalidRsTechnique)
        } else {
            Err(Error::InvalidScalingTechnique(value as usize))
        }
    }

    /// The technique that an integer of any width is the code of; the error
    /// that holds the integer, cut to the width of `usize`, if it is the code
    /// of none.
    pub open spec fn from_int(value: i128) -> Result<Self, Error> {
        if 0 <= value <= 255 {
            Self::from_code(value as u8)
        } else {
            Err(Error::InvalidScalingTechnique(value as usize))
        }
    }

    /// The technique that a text names, if any.
    pub open spec fn named(text: Seq<char>) -> Option<Self> {
        if text == "FixedManual"@ {
            Some(ScalingTechnique::FixedManual)
        } else if text == "FixedAuto"@ {
            Some(ScalingTechnique::FixedAuto)
        } else if text == "FlexibleAuto"@ {
            Some(ScalingTechnique::FlexibleAuto)
        } else if text == "FlexibleAutoExt"@ {
            Some(ScalingTechnique::FlexibleAutoExt)
        } else if text == "NoRescale"@ {
            Some(ScalingTechnique::NoRescale)
        } else if text == "InvalidRsTechnique"@ {
            Some(ScalingTechnique::InvalidRsTechnique)
        } else {
            None
        }
    }

    /// The message of the error for a text that names no technique.
    pub open spec fn unknown_name(text: Seq<char>) -> Seq<char> {
        "invalid string when parsing Scaling Technique: '"@ + text + "'"@
    }

    /// The name of the technique.
    pub fn to_string(&self) -> (text: String)
        ensures
            text@ == self.name(),
    {
        match self {
            ScalingTechnique::FixedManual => "FixedManual".to_owned(),
            ScalingTechnique::FixedAuto => "FixedAuto".to_owned(),
            ScalingTechnique::FlexibleAuto => "FlexibleAuto".to_owned(),
            ScalingTechnique::FlexibleAutoExt => "FlexibleAutoExt".to_owned(),
            ScalingTechnique::NoRescale => "NoRescale".to_owned(),
            ScalingTechnique::InvalidRsTechnique => "InvalidRsTechnique".to_owned(),
        }
    }

    /// The technique whose code is `value`, for a code held in an integer of
    /// any width. A value that is no code comes back in the error, cut to the
    /// width of `usize`.
    pub fn try_from_int(value: i128) -> (r: Result<Self, Error>)
        ensures
            r == Self::from_int(value),
    {
        if 0 <= value && value <= 255 {
            ScalingTechnique::try_from(value as u8)
        } else {
            Err(Error::InvalidScalingTechnique(#[verifier::truncate] (value as usize)))
        }
    }

    /// The code of every technique converts back to the technique.
    pub proof fn lemma_code_round_trip(value: Self)
        ensures
            Self::from_code(value.code()) == Ok::<Self, Error>(value),
            Self::from_int(value.code() as i128) == Ok::<Self, Error>(value),
    {
    }

    /// The name of every technique parses back to the technique.
    pub proof fn lemma_name_round_trip(value: Self)
        ensures
            Self::named(value.name()) == Some(value),
    {
        Self::lemma_names_differ();
        assert(ScalingTechnique::FixedManual.name() == "FixedManual"@);
        assert(ScalingTechnique::FixedAuto.name() == "FixedAuto"@);
        assert(ScalingTechnique::FlexibleAuto.name() == "FlexibleAuto"@);
        assert(ScalingTechnique::FlexibleAutoExt.name() == "FlexibleAutoExt"@);
        assert(ScalingTechnique::NoRescale.name() == "NoRescale"@);
        assert(ScalingTechnique::InvalidRsTechnique.name() == "InvalidRsTechnique"@);
    }

    /// A number converts to a technique only if it is the code of that
    /// technique; any other number is rejected with an error that holds it.
    pub proof fn lemma_only_codes_convert(code: u8)
        ensures
            match Self::from_code(code) {
                Ok(value) => value.code() == code,
                Err(e) => {
                    &&& e == Error::InvalidScalingTechnique(code as usize)
                    &&& forall|value: Self| #[trigger] value.code() != code
                },
            },
    {
    }

    /// A text parses to a technique only if it is the name of that technique;
    /// any other text is rejected.
    pub proof fn lemma_only_names_parse(text: Seq<char>)
        ensures
            match Self::named(text) {
                Some(value) => value.name() == text,
                None => forall|value: Self| #[trigger] value.name() != text,
            },
    {
    }

    /// No two techniques have the same name.
    proof fn lemma_names_differ()
        ensures
            forall|x: Self, y: Self| #[trigger] x.name() == #[trigger] y.name() ==> x == y,
    {
        reveal_strlit("FixedManual");
        reveal_strlit("FixedAuto");
        reveal_strlit("FlexibleAuto");
        reveal_strlit("FlexibleAutoExt");
        reveal_strlit("NoRescale");
        reveal_strlit("InvalidRsTechnique");
        assert forall|x: Self, y: Self| #[trigger] x.name() == #[trigger] y.name() implies x
            == y by {
            // names of one length differ in one of these places
            assert(x.name().len() == y.name().len());
            assert(x.name()[0] == y.name()[0]);
        }
    }
}

impl TryFrom<u8> for ScalingTechnique {
    type Error = Error;

    /// The technique whose code is `value`; an error that holds `value` if it
    /// is the code of no technique.
    fn try_from(value: u8) -> (r: Result<Self, Error>)
        ensures
            r == Self::from_code(value),
    {
        match value {
            0 => Ok(ScalingTechnique::FixedManual),
            1 => Ok(ScalingTechnique::FixedAuto),
            2 => Ok(ScalingTechnique::FlexibleAuto),
            3 => Ok(ScalingTechnique::FlexibleAutoExt),
            4 => Ok(ScalingTechnique::NoRescale),
            5 => Ok(ScalingTechnique::InvalidRsTechnique),
            _ => Err(Error::InvalidScalingTechnique(value as usize)),
        }
    }
}

impl TryFromSpecImpl<u8> for ScalingTechnique {
    open spec fn obeys_try_from_spec() -> bool {
        true
    }

    open spec fn try_from_spec(value: u8) -> Result<Self, Error> {
        Self::from_code(value)
    }
}

impl From<ScalingTechnique> for u8 {
    /// The numeric code of the technique.
    fn from(value: ScalingTechnique) -> (code: u8)
        ensures
            code == value.code(),
    {
        match value {
            ScalingTechnique::FixedManual => 0,
            ScalingTechnique::FixedAuto => 1,
            ScalingTechnique::FlexibleAuto => 2,
            ScalingTechnique::FlexibleAutoExt => 3,
            ScalingTechnique::NoRescale => 4,
            ScalingTechnique::InvalidRsTechnique => 5,
        }
    }
}

impl FromSpecImpl<ScalingTechnique> for u8 {
    open spec fn obeys_from_spec() -> bool {
        true
    }

    open spec fn from_spec(value: ScalingTechnique) -> u8 {
        value.code()
    }
}

impl FromStr for ScalingTechnique {
    type Err = Error;

    /// The technique that `s` names; an error whose message quotes `s` if it
    /// names none.
    fn from_str(s: &str) -> (r: Result<Self, Error>)
        ensures
            match Self::named(s@) {
                Some(value) => r == Ok::<Self, Error>(value),
                None => {
                    &&& r matches Err(Error::ParseError(message))
                    &&& message@ == Self::unknown_name(s@)
                },
            },
    {
        if same_text(s, "FixedManual") {
            Ok(ScalingTechnique::FixedManual)
        } else if same_text(s, "FixedAuto") {
            Ok(ScalingTechnique::FixedAuto)
        } else if same_text(s, "FlexibleAuto") {
            Ok(ScalingTechnique::FlexibleAuto)
        } else if same_text(s, "FlexibleAutoExt") {
            Ok(ScalingTechnique::FlexibleAutoExt)
        } else if same_text(s, "NoRescale") {
            Ok(ScalingTechnique::NoRescale)
        } else if same_text(s, "InvalidRsTechnique") {
            Ok(ScalingTechnique::InvalidRsTechnique)
        } else {
            Err(
                Error::ParseError(
                    quoted(
                        "invalid string when parsing Scaling Technique: '",
                        s,
                        "'",
                    ),
                ),
            )
        }
    }
}

impl Default for ScalingTechnique {
    /// `FixedManual`.
    fn default() -> (value: Self)
        ensures
            value == ScalingTechnique::FixedManual,
    {
        ScalingTechnique::FixedManual
    }
}

// The code in the wider integer types.
impl From<ScalingTechnique> for i8 {
    /// The numeric code of the technique, as `i8`.
    fn from(value: ScalingTechnique) -> (code: i8)
        ensures
            code == value.code(),
    {
        u8::from(value) as i8
    }
}

impl FromSpecImpl<ScalingTechnique> for i8 {
    open spec fn obeys_from_spec() -> bool {
        true
    }

    open spec fn from_spec(value: ScalingTechnique) -> i8 {
        value.code() as i8
    }
}

impl From<ScalingTechnique> for u16 {
    /// The numeric code of the technique, as `u16`.
    fn from(value: ScalingTechnique) -> (code: u16)
        ensures
            code == value.code(),
    {
        u8::from(value) as u16
    }
}

impl FromSpecImpl<ScalingTechnique> for u16 {
    open spec fn obeys_from_spec() -> bool {
        true
    }

    open spec fn from_spec(value: ScalingTechnique) -> u16 {
        value.code() as u16
    }
}

impl From<ScalingTechnique> for i16 {
    /// The numeric code of the technique, as `i16`.
    fn from(value: ScalingTechnique) -> (code: i16)
        ensures
            code == value.code(),
    {
        u8::from(value) as i16
    }
}

impl FromSpecImpl<ScalingTechnique> for i16 {
    open spec fn obeys_from_spec() -> bool {
        true
    }

    open spec fn from_spec(value: ScalingTechnique) -> i16 {
        value.code() as i16
    }
}

impl From<ScalingTechnique> for u32 {
    /// The numeric code of the technique, as `u32`.
    fn from(value: ScalingTechnique) -> (code: u32)
        ensures
            code == value.code(),
    {
        u8::from(value) as u32
    }
}

impl FromSpecImpl<ScalingTechnique> for u32 {
    open spec fn obeys_from_spec() -> bool {
        true
    }

    open spec fn from_spec(value: ScalingTechnique) -> u32 {
        value.code() as u32
    }
}

impl From<ScalingTechnique> for i32 {
    /// The numeric code of the technique, as `i32`.
    fn from(value: ScalingTechnique) -> (code: i32)
        ensures
            code == value.code(),
    {
        u8::from(value) as i32
    }
}

impl FromSpecImpl<ScalingTechnique> for i32 {
    open spec fn obeys_from_spec() -> bool {
        true
    }

    open spec fn from_spec(value: ScalingTechnique) -> i32 {
        value.code() as i32
    }
}

impl From<ScalingTechnique> for u64 {
    /// The numeric code of the technique, as `u64`.
    fn from(value: ScalingTechnique) -> (code: u64)
        ensures
            code == value.code(),
    {
        u8::from(value) as u64
    }
}

impl FromSpecImpl<ScalingTechnique> for u64 {
    open spec fn obeys_from_spec() -> bool {
        true
    }

    open spec fn from_spec(value: ScalingTechnique) -> u64 {
        value.code() as u64
    }
}

impl From<ScalingTechnique> for i64 {
    /// The numeric code of the technique, as `i64`.
    fn from(value: ScalingTechnique) -> (code: i64)
        ensures
            code == value.code(),
    {
        u8::from(value) as i64
    }
}

impl FromSpecImpl<ScalingTechnique> for i64 {
    open spec fn obeys_from_spec() -> bool {
        true
    }

    open spec fn from_spec(value: ScalingTechnique) -> i64 {
        value.code() as i64
    }
}

impl From<ScalingTechnique> for usize {
    /// The numeric code of the technique, as `usize`.
    fn from(value: ScalingTechnique) -> (code: usize)
        ensures
            code == value.code(),
    {
        u8::from(value) as usize
    }
}

impl FromSpecImpl<ScalingTechnique> for usize {
    open spec fn obeys_from_spec() -> bool {
        true
    }

    open spec fn from_spec(value: ScalingTechnique) -> usize {
        value.code() as usize
    }
}

impl From<ScalingTechnique> for isize {
    /// The numeric code of the technique, as `isize`.
    fn from(value: ScalingTechnique) -> (code: isize)
        ensures
            code == value.code(),
    {
        u8::from(value) as isize
    }
}

impl FromSpecImpl<ScalingTechnique> for isize {
    open spec fn obeys_from_spec() -> bool {
        true
    }

    open spec fn from_spec(value: ScalingTechnique) -> isize {
        value.code() as isize
    }
}

// The code out of the wider integer types.
impl TryFrom<i8> for ScalingTechnique {
    type Error = Error;

    /// The technique whose code is `value`; an error that holds `value` as a
    /// `usize` if it is the code of no technique.
    fn try_from(value: i8) -> (r: Result<Self, Error>)
        ensures
            r == Self::from_int(value as i128),
    {
        ScalingTechnique::try_from_int(value as i128)
    }
}

impl TryFromSpecImpl<i8> for ScalingTechnique {
    open spec fn obeys_try_from_spec() -> bool {
        true
    }

    open spec fn try_from_spec(value: i8) -> Result<Self, Error> {
        Self::from_int(value as i128)
    }
}

impl TryFrom<u16> for ScalingTechnique {
    type Error = Error;

    /// The technique whose code is `value`; an error that holds `value` as a
    /// `usize` if it is the code of no technique.
    fn try_from(value: u16) -> (r: Result<Self, Error>)
        ensures
            r == Self::from_int(value as i128),
    {
        ScalingTechnique::try_from_int(value as i128)
    }
}

impl TryFromSpecImpl<u16> for ScalingTechnique {
    open spec fn obeys_try_from_spec() -> bool {
        true
    }

    open spec fn try_from_spec(value: u16) -> Result<Self, Error> {
        Self::from_int(value as i128)
    }
}

impl TryFrom<i16> for ScalingTechnique {
    type Error = Error;

    /// The technique whose code is `value`; an error that holds `value` as a
    /// `usize` if it is the code of no technique.
    fn try_from(value: i16) -> (r: Result<Self, Error>)
        ensures
            r == Self::from_int(value as i128),
    {
        ScalingTechnique::try_from_int(value as i128)
    }
}

impl TryFromSpecImpl<i16> for ScalingTechnique {
    open spec fn obeys_try_from_spec() -> bool {
        true
    }

    open spec fn try_from_spec(value: i16) -> Result<Self, Error> {
        Self::from_int(value as i128)
    }
}

impl TryFrom<u32> for ScalingTechnique {
    type Error = Error;

    /// The technique whose code is `value`; an error that holds `value` as a
    /// `usize` if it is the code of no technique.
    fn try_from(value: u32) -> (r: Result<Self, Error>)
        ensures
            r == Self::from_int(value as i128),
    {
        ScalingTechnique::try_from_int(value as i128)
    }
}

impl TryFromSpecImpl<u32> for ScalingTechnique {
    open spec fn obeys_try_from_spec() -> bool {
        true
    }

    open spec fn try_from_spec(value: u32) -> Result<Self, Error> {
        Self::from_int(value as i128)
    }
}

impl TryFrom<i32> for ScalingTechnique {
    type Error = Error;

    /// The technique whose code is `value`; an error that holds `value` as a
    /// `usize` if it is the code of no technique.
    fn try_from(value: i32) -> (r: Result<Self, Error>)
        ensures
            r == Self::from_int(value as i128),
    {
        ScalingTechnique::try_from_int(value as i128)
    }
}

impl TryFromSpecImpl<i32> for ScalingTechnique {
    open spec fn obeys_try_from_spec() -> bool {
        true
    }

    open spec fn try_from_spec(value: i32) -> Result<Self, Error> {
        Self::from_int(value as i128)
    }
}

impl TryFrom<u64> for ScalingTechnique {
    type Error = Error;

    /// The technique whose code is `value`; an error that holds `value` as a
    /// `usize` if it is the code of no technique.
    fn try_from(value: u64) -> (r: Result<Self, Error>)
        ensures
            r == Self::from_int(value as i128),
    {
        ScalingTechnique::try_from_int(value as i128)
    }
}

impl TryFromSpecImpl<u64> for ScalingTechnique {
    open spec fn obeys_try_from_spec() -> bool {
        true
    }

    open spec fn try_from_spec(value: u64) -> Result<Self, Error> {
        Self::from_int(value as i128)
    }
}

impl TryFrom<i64> for ScalingTechnique {
    type Error = Error;

    /// The technique whose code is `value`; an error that holds `value` as a
    /// `usize` if it is the code of no technique.
    fn try_from(value: i64) -> (r: Result<Self, Error>)
        ensures
            r == Self::from_int(value as i128),
    {
        ScalingTechnique::try_from_int(value as i128)
    }
}

impl TryFromSpecImpl<i64> for ScalingTechnique {
    open spec fn obeys_try_from_spec() -> bool {
        true
    }

    open spec fn try_from_spec(value: i64) -> Result<Self, Error> {
        Self::from_int(value as i128)
    }
}

impl TryFrom<usize> for ScalingTechnique {
    type Error = Error;

    /// The technique whose code is `value`; an error that holds `value` as a
    /// `usize` if it is the code of no technique.
    fn try_from(value: usize) -> (r: Result<Self, Error>)
        ensures
            r == Self::from_int(value as i128),
    {
        ScalingTechnique::try_from_int(value as i128)
    }
}

impl TryFromSpecImpl<usize> for ScalingTechnique {
    open spec fn obeys_try_from_spec() -> bool {
        true
    }

    open spec fn try_from_spec(value: usize) -> Result<Self, Error> {
        Self::from_int(value as i128)
    }
}

impl TryFrom<isize> for ScalingTechnique {
    type Error = Error;

    /// The technique whose code is `value`; an error that holds `value` as a
    /// `usize` if it is the code of no technique.
    fn try_from(value: isize) -> (r: Result<Self, Error>)
        ensures
            r == Self::from_int(value as i128),
    {
        ScalingTechnique::try_from_int(value as i128)
    }
}

impl TryFromSpecImpl<isize> for ScalingTechnique {
    open spec fn obeys_try_from_spec() -> bool {
        true
    }

    open spec fn try_from_spec(value: isize) -> Result<Self, Error> {
        Self::from_int(value as i128)
    }
}

} // verus!
