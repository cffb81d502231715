//! The multiplication technique.

use crate::error::Error;
use crate::fhe_core::text::{quoted, same_text};
use std::str::FromStr;
use vstd::prelude::*;
use vstd::std_specs::convert::{FromSpecImpl, TryFromSpecImpl};

verus! {

/// Multiplication technique used in the FHE scheme.
#[derive(Debug, Clone, Copy, PartialEq, Eq, Structural)]
pub enum MultiplicationTechnique {
    /// The technique of Bajard, Eynard, Hasan and Zucca.
    Behz,
    /// The technique of Halevi, Polyakov and Shoup.
    Hps,
    /// HPS with the scaling by P over Q.
    HpsPoverq,
    /// HPS with the scaling by P over Q, leveled.
    HpsPoverqLeveled,
}

impl MultiplicationTechnique {
    /// The numeric code of a technique, as it goes on the wire.
    pub open spec fn code(self) -> u8 {
        match self {
            MultiplicationTechnique::Behz => 0,
            MultiplicationTechnique::Hps => 1,
            MultiplicationTechnique::HpsPoverq => 2,
            MultiplicationTechnique::HpsPoverqLeveled => 3,
        }
    }

    /// The name of a technique, as it is displayed.
    pub open spec fn name(self) -> Seq<char> {
        match self {
            MultiplicationTechnique::Behz => "Behz"@,
            MultiplicationTechnique::Hps => "Hps"@,
            MultiplicationTechnique::HpsPoverq => "HpsPoverq"@,
            MultiplicationTechnique::HpsPoverqLeveled => "HpsPoverqLeveled"@,
        }
    }

    /// The technique that a number is the code of; the error that holds the
    /// number if it is the code of none.
    pub open spec fn from_code(value: u8) -> Result<Self, Error> {
        if value == 0 {
            Ok(MultiplicationTechnique::Behz)
        } else if value == 1 {
            Ok(MultiplicationTechnique::Hps)
        } else if value == 2 {
            Ok(MultiplicationTechnique::HpsPoverq)
        } else if value == 3 {
            Ok(MultiplicationTechnique::HpsPoverqLeveled)
        } else {
            Err(Error::InvalidMultiplicationTechnique(value as usize))
        }
    }

    /// The technique that an integer of any width is the code of; the error
    /// that holds the integer, cut to the width of `usize`, if it is the code
    /// of none.
    pub open spec fn from_int(value: i128) -> Result<Self, Error> {
        if 0 <= value <= 255 {
            Self::from_code(value as u8)
        } else {
            Err(Error::InvalidMultiplicationTechnique(value as usize))
        }
    }

    /// The technique that a text names, if any.
    pub open spec fn named(text: Seq<char>) -> Option<Self> {
        if text == "Behz"@ {
            Some(MultiplicationTechnique::Behz)
        } else if text == "Hps"@ {
            Some(MultiplicationTechnique::Hps)
        } else if text == "HpsPoverq"@ {
            Some(MultiplicationTechnique::HpsPoverq)
        } else if text == "HpsPoverqLeveled"@ {
            Some(MultiplicationTechnique::HpsPoverqLeveled)
        } else {
            None
        }
    }

    /// The message of the error for a text that names no technique.
    pub open spec fn unknown_name(text: Seq<char>) -> Seq<char> {
        "invalid string when parsing MultiplicationTechnique: '"@ + text + "'"@
    }

    /// The name of the technique.
    pub fn to_string(&self) -> (text: String)
        ensures
            text@ == self.name(),
    {
        match self {
            MultiplicationTechnique::Behz => "Behz".to_owned(),
            MultiplicationTechnique::Hps => "Hps".to_owned(),
            MultiplicationTechnique::HpsPoverq => "HpsPoverq".to_owned(),
            MultiplicationTechnique::HpsPoverqLeveled => "HpsPoverqLeveled".to_owned(),
        }
    }

    /// The technique whose code is `value`, for a code held in an integer of
    /// any width. A value that is no code comes back in the error, cut to the
    /// width of `usize`.
    pub fn try_from_int(value: i128) -> (r: Result<Self, Error>)
        ensures
            r == Self::from_int(value),
    {
        if 0 <= value && value <= 255 {
            MultiplicationTechnique::try_from(value as u8)
        } else {
            Err(Error::InvalidMultiplicationTechnique(#[verifier::truncate] (value as usize)))
        }
    }

    /// The code of every technique converts back to the technique.
    pub proof fn lemma_code_round_trip(value: Self)
        ensures
            Self::from_code(value.code()) == Ok::<Self, Error>(value),
            Self::from_int(value.code() as i128) == Ok::<Self, Error>(value),
    {
    }

    /// The name of every technique parses back to the technique.
    pub proof fn lemma_name_round_trip(value: Self)
        ensures
            Self::named(value.name()) == Some(value),
    {
        Self::lemma_names_differ();
        assert(MultiplicationTechnique::Behz.name() == "Behz"@);
        assert(MultiplicationTechnique::Hps.name() == "Hps"@);
        assert(MultiplicationTechnique::HpsPoverq.name() == "HpsPoverq"@);
        assert(MultiplicationTechnique::HpsPoverqLeveled.name() == "HpsPoverqLeveled"@);
    }

    /// A number converts to a technique only if it is the code of that
    /// technique; any other number is rejected with an error that holds it.
    pub proof fn lemma_only_codes_convert(code: u8)
        ensures
            match Self::from_code(code) {
                Ok(value) => value.code() == code,
                Err(e) => {
                    &&& e == Error::InvalidMultiplicationTechnique(code as usize)
                    &&& forall|value: Self| #[trigger] value.code() != code
                },
            },
    {
    }

    /// A text parses to a technique only if it is the name of that technique;
    /// any other text is rejected.
    pub proof fn lemma_only_names_parse(text: Seq<char>)
        ensures
            match Self::named(text) {
                Some(value) => value.name() == text,
                None => forall|value: Self| #[trigger] value.name() != text,
            },
    {
    }

    /// No two techniques have the same name.
    proof fn lemma_names_differ()
        ensures
            forall|x: Self, y: Self| #[trigger] x.name() == #[trigger] y.name() ==> x == y,
    {
        reveal_strlit("Behz");
        reveal_strlit("Hps");
        reveal_strlit("HpsPoverq");
        reveal_strlit("HpsPoverqLeveled");
        assert forall|x: Self, y: Self| #[trigger] x.name() == #[trigger] y.name() implies x
            == y by {
            assert(x.name().len() == y.name().len());
        }
    }
}

impl TryFrom<u8> for MultiplicationTechnique {
    type Error = Error;

    /// The technique whose code is `value`; an error that holds `value` if it
    /// is the code of no technique.
    fn try_from(value: u8) -> (r: Result<Self, Error>)
        ensures
            r == Self::from_code(value),
    {
        match value {
            0 => Ok(MultiplicationTechnique::Behz),
            1 => Ok(MultiplicationTechnique::Hps),
            2 => Ok(MultiplicationTechnique::HpsPoverq),
            3 => Ok(MultiplicationTechnique::HpsPoverqLeveled),
            _ => Err(Error::InvalidMultiplicationTechnique(value as usize)),
        }
    }
}

impl TryFromSpecImpl<u8> for MultiplicationTechnique {
    open spec fn obeys_try_from_spec() -> bool {
        true
    }

    open spec fn try_from_spec(value: u8) -> Result<Self, Error> {
        Self::from_code(value)
    }
}

impl From<MultiplicationTechnique> for u8 {
    /// The numeric code of the technique.
    fn from(value: MultiplicationTechnique) -> (code: u8)
        ensures
            code == value.code(),
    {
        match value {
            MultiplicationTechnique::Behz => 0,
            MultiplicationTechnique::Hps => 1,
            MultiplicationTechnique::HpsPoverq => 2,
            MultiplicationTechnique::HpsPoverqLeveled => 3,
        }
    }
}

impl FromSpecImpl<MultiplicationTechnique> for u8 {
    open spec fn obeys_from_spec() -> bool {
        true
    }

    open spec fn from_spec(value: MultiplicationTechnique) -> u8 {
        value.code()
    }
}

impl FromStr for MultiplicationTechnique {
    type Err = Error;

    /// The technique that `s` names; an error whose message quotes `s` if it
    /// names none.
    fn from_str(s: &str) -> (r: Result<Self, Error>)
        ensures
            match Self::named(s@) {
                Some(value) => r == Ok::<Self, Error>(value),
                None => {
                    &&& r matches Err(Error::ParseError(message))
                    &&& message@ == Self::unknown_name(s@)
                },
            },
    {
        if same_text(s, "Behz") {
            Ok(MultiplicationTechnique::Behz)
        } else if same_text(s, "Hps") {
            Ok(MultiplicationTechnique::Hps)
        } else if same_text(s, "HpsPoverq") {
            Ok(MultiplicationTechnique::HpsPoverq)
        } else if same_text(s, "HpsPoverqLeveled") {
            Ok(MultiplicationTechnique::HpsPoverqLeveled)
        } else {
            Err(
                Error::ParseError(
                    quoted(
                        "invalid string when parsing MultiplicationTechnique: '",
                        s,
                        "'",
                    ),
                ),
            )
        }
    }
}

impl Default for MultiplicationTechnique {
    /// `Behz`.
    fn default() -> (value: Self)
        ensures
            value == MultiplicationTechnique::Behz,
    {
        MultiplicationTechnique::Behz
    }
}

// The code in the wider integer types.
impl From<MultiplicationTechnique> for i8 {
    /// The numeric code of the technique, as `i8`.
    fn from(value: MultiplicationTechnique) -> (code: i8)
        ensures
            code == value.code(),
    {
        u8::from(value) as i8
    }
}

impl FromSpecImpl<MultiplicationTechnique> for i8 {
    open spec fn obeys_from_spec() -> bool {
        true
    }

    open spec fn from_spec(value: MultiplicationTechnique) -> i8 {
        value.code() as i8
    }
}

impl From<MultiplicationTechnique> for u16 {
    /// The numeric code of the technique, as `u16`.
    fn from(value: MultiplicationTechnique) -> (code: u16)
        ensures
            code == value.code(),
    {
        u8::from(value) as u16
    }
}

impl FromSpecImpl<MultiplicationTechnique> for u16 {
    open spec fn obeys_from_spec() -> bool {
        true
    }

    open spec fn from_spec(value: MultiplicationTechnique) -> u16 {
        value.code() as u16
    }
}

impl From<MultiplicationTechnique> for i16 {
    /// The numeric code of the technique, as `i16`.
    fn from(value: MultiplicationTechnique) -> (code: i16)
        ensures
            code == value.code(),
    {
        u8::from(value) as i16
    }
}

impl FromSpecImpl<MultiplicationTechnique> for i16 {
    open spec fn obeys_from_spec() -> bool {
        true
    }

    open spec fn from_spec(value: MultiplicationTechnique) -> i16 {
        value.code() as i16
    }
}

impl From<MultiplicationTechnique> for u32 {
    /// The numeric code of the technique, as `u32`.
    fn from(value: MultiplicationTechnique) -> (code: u32)
        ensures
            code == value.code(),
    {
        u8::from(value) as u32
    }
}

impl FromSpecImpl<MultiplicationTechnique> for u32 {
    open spec fn obeys_from_spec() -> bool {
        true
    }

    open spec fn from_spec(value: MultiplicationTechnique) -> u32 {
        value.code() as u32
    }
}

impl From<MultiplicationTechnique> for i32 {
    /// The numeric code of the technique, as `i32`.
    fn from(value: MultiplicationTechnique) -> (code: i32)
        ensures
            code == value.code(),
    {
        u8::from(value) as i32
    }
}

impl FromSpecImpl<MultiplicationTechnique> for i32 {
    open spec fn obeys_from_spec() -> bool {
        true
    }

    open spec fn from_spec(value: MultiplicationTechnique) -> i32 {
        value.code() as i32
    }
}

impl From<MultiplicationTechnique> for u64 {
    /// The numeric code of the technique, as `u64`.
    fn from(value: MultiplicationTechnique) -> (code: u64)
        ensures
            code == value.code(),
    {
        u8::from(value) as u64
    }
}

impl FromSpecImpl<MultiplicationTechnique> for u64 {
    open spec fn obeys_from_spec() -> bool {
        true
    }

    open spec fn from_spec(value: MultiplicationTechnique) -> u64 {
        value.code() as u64
    }
}

impl From<MultiplicationTechnique> for i64 {
    /// The numeric code of the technique, as `i64`.
    fn from(value: MultiplicationTechnique) -> (code: i64)
        ensures
            code == value.code(),
    {
        u8::from(value) as i64
    }
}

impl FromSpecImpl<MultiplicationTechnique> for i64 {
    open spec fn obeys_from_spec() -> bool {
        true
    }

    open spec fn from_spec(value: MultiplicationTechnique) -> i64 {
        value.code() as i64
    }
}

impl From<MultiplicationTechnique> for usize {
    /// The numeric code of the technique, as `usize`.
    fn from(value: MultiplicationTechnique) -> (code: usize)
        ensures
            code == value.code(),
    {
        u8::from(value) as usize
    }
}

impl FromSpecImpl<MultiplicationTechnique> for usize {
    open spec fn obeys_from_spec() -> bool {
        true
    }

    open spec fn from_spec(value: MultiplicationTechnique) -> usize {
        value.code() as usize
    }
}

impl From<MultiplicationTechnique> for isize {
    /// The numeric code of the technique, as `isize`.
    fn from(value: MultiplicationTechnique) -> (code: isize)
        ensures
            code == value.code(),
    {
        u8::from(value) as isize
    }
}

impl FromSpecImpl<MultiplicationTechnique> for isize {
    open spec fn obeys_from_spec() -> bool {
        true
    }

    open spec fn from_spec(value: MultiplicationTechnique) -> isize {
        value.code() as isize
    }
}

// The code out of the wider integer types.
impl TryFrom<i8> for MultiplicationTechnique {
    type Error = Error;

    /// The technique whose code is `value`; an error that holds `value` as a
    /// `usize` if it is the code of no technique.
    fn try_from(value: i8) -> (r: Result<Self, Error>)
        ensures
            r == Self::from_int(value as i128),
    {
        MultiplicationTechnique::try_from_int(value as i128)
    }
}

impl TryFromSpecImpl<i8> for MultiplicationTechnique {
    open spec fn obeys_try_from_spec() -> bool {
        true
    }

    open spec fn try_from_spec(value: i8) -> Result<Self, Error> {
        Self::from_int(value as i128)
    }
}

impl TryFrom<u16> for MultiplicationTechnique {
    type Error = Error;

    /// The technique whose code is `value`; an error that holds `value` as a
    /// `usize` if it is the code of no technique.
    fn try_from(value: u16) -> (r: Result<Self, Error>)
        ensures
            r == Self::from_int(value as i128),
    {
        MultiplicationTechnique::try_from_int(value as i128)
    }
}

impl TryFromSpecImpl<u16> for MultiplicationTechnique {
    open spec fn obeys_try_from_spec() -> bool {
        true
    }

    open spec fn try_from_spec(value: u16) -> Result<Self, Error> {
        Self::from_int(value as i128)
    }
}

impl TryFrom<i16> for MultiplicationTechnique {
    type Error = Error;

    /// The technique whose code is `value`; an error that holds `value` as a
    /// `usize` if it is the code of no technique.
    fn try_from(value: i16) -> (r: Result<Self, Error>)
        ensures
            r == Self::from_int(value as i128),
    {
        MultiplicationTechnique::try_from_int(value as i128)
    }
}

impl TryFromSpecImpl<i16> for MultiplicationTechnique {
    open spec fn obeys_try_from_spec() -> bool {
        true
    }

    open spec fn try_from_spec(value: i16) -> Result<Self, Error> {
        Self::from_int(value as i128)
    }
}

impl TryFrom<u32> for MultiplicationTechnique {
    type Error = Error;

    /// The technique whose code is `value`; an error that holds `value` as a
    /// `usize` if it is the code of no technique.
    fn try_from(value: u32) -> (r: Result<Self, Error>)
        ensures
            r == Self::from_int(value as i128),
    {
        MultiplicationTechnique::try_from_int(value as i128)
    }
}

impl TryFromSpecImpl<u32> for MultiplicationTechnique {
    open spec fn obeys_try_from_spec() -> bool {
        true
    }

    open spec fn try_from_spec(value: u32) -> Result<Self, Error> {
        Self::from_int(value as i128)
    }
}

impl TryFrom<i32> for MultiplicationTechnique {
    type Error = Error;

    /// The technique whose code is `value`; an error that holds `value` as a
    /// `usize` if it is the code of no technique.
    fn try_from(value: i32) -> (r: Result<Self, Error>)
        ensures
            r == Self::from_int(value as i128),
    {
        MultiplicationTechnique::try_from_int(value as i128)
    }
}

impl TryFromSpecImpl<i32> for MultiplicationTechnique {
    open spec fn obeys_try_from_spec() -> bool {
        true
    }

    open spec fn try_from_spec(value: i32) -> Result<Self, Error> {
        Self::from_int(value as i128)
    }
}

impl TryFrom<u64> for MultiplicationTechnique {
    type Error = Error;

    /// The technique whose code is `value`; an error that holds `value` as a
    /// `usize` if it is the code of no technique.
    fn try_from(value: u64) -> (r: Result<Self, Error>)
        ensures
            r == Self::from_int(value as i128),
    {
        MultiplicationTechnique::try_from_int(value as i128)
    }
}

impl TryFromSpecImpl<u64> for MultiplicationTechnique {
    open spec fn obeys_try_from_spec() -> bool {
        true
    }

    open spec fn try_from_spec(value: u64) -> Result<Self, Error> {
        Self::from_int(value as i128)
    }
}

impl TryFrom<i64> for MultiplicationTechnique {
    type Error = Error;

    /// The technique whose code is `value`; an error that holds `value` as a
    /// `usize` if it is the code of no technique.
    fn try_from(value: i64) -> (r: Result<Self, Error>)
        ensures
            r == Self::from_int(value as i128),
    {
        MultiplicationTechnique::try_from_int(value as i128)
    }
}

impl TryFromSpecImpl<i64> for MultiplicationTechnique {
    open spec fn obeys_try_from_spec() -> bool {
        true
    }

    open spec fn try_from_spec(value: i64) -> Result<Self, Error> {
        Self::from_int(value as i128)
    }
}

impl TryFrom<usize> for MultiplicationTechnique {
    type Error = Error;

    /// The technique whose code is `value`; an error that holds `value` as a
    /// `usize` if it is the code of no technique.
    fn try_from(value: usize) -> (r: Result<Self, Error>)
        ensures
            r == Self::from_int(value as i128),
    {
        MultiplicationTechnique::try_from_int(value as i128)
    }
}

impl TryFromSpecImpl<usize> for MultiplicationTechnique {
    open spec fn obeys_try_from_spec() -> bool {
        true
    }

    open spec fn try_from_spec(value: usize) -> Result<Self, Error> {
        Self::from_int(value as i128)
    }
}

impl TryFrom<isize> for MultiplicationTechnique {
    type Error = Error;

    /// The technique whose code is `value`; an error that holds `value` as a
    /// `usize` if it is the code of no technique.
    fn try_from(value: isize) -> (r: Result<Self, Error>)
        ensures
            r == Self::from_int(value as i128),
    {
        MultiplicationTechnique::try_from_int(value as i128)
    }
}

impl TryFromSpecImpl<isize> for MultiplicationTechnique {
    open spec fn obeys_try_from_spec() -> bool {
        true
    }

    open spec fn try_from_spec(value: isize) -> Result<Self, Error> {
        Self::from_int(value as i128)
    }
}

} // verus!
