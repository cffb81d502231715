//! The key switch technique.

use crate::error::Error;
use crate::fhe_core::text::{quoted, same_text};
use std::str::FromStr;
use vstd::prelude::*;
use vstd::std_specs::convert::{FromSpecImpl, TryFromSpecImpl};

verus! {

/// Key Switch Technique.
#[derive(Debug, Clone, Copy, PartialEq, Eq, Structural)]
pub enum KeySwitchTechnique {
    /// No technique: the value before one is chosen.
    InvalidKsTech,
    /// The Brakerski-Vaikuntanathan technique.
    Bv,
    /// The hybrid technique.
    Hybrid,
}

impl KeySwitchTechnique {
    /// The numeric code of a technique, as it goes on the wire.
    pub open spec fn code(self) -> u8 {
        match self {
            KeySwitchTechnique::InvalidKsTech => 0,
            KeySwitchTechnique::Bv => 1,
            KeySwitchTechnique::Hybrid => 2,
        }
    }

    /// The name of a technique, as it is displayed.
    pub open spec fn name(self) -> Seq<char> {
        match self {
            KeySwitchTechnique::InvalidKsTech => "Invalid Key Switch Technique"@,
            KeySwitchTechnique::Bv => "Bv"@,
            KeySwitchTechnique::Hybrid => "Hybrid"@,
        }
    }

    /// The technique that a number is the code of; the error that holds the
    /// number if it is the code of none.
    pub open spec fn from_code(value: u8) -> Result<Self, Error> {
        if value == 0 {
            Ok(KeySwitchTechnique::InvalidKsTech)
        } else if value == 1 {
            Ok(KeySwitchTechnique::Bv)
        } else if value == 2 {
            Ok(KeySwitchTechnique::Hybrid)
        } else {
            Err(Error::InvalidKeySwitchTechnique(value as usize))
        }
    }

    /// The technique that an integer of any width is the code of; the error
    /// that holds the integer, cut to the width of `usize`, if it is the code
    /// of none.
    pub open spec fn from_int(value: i128) -> Result<Self, Error> {
        if 0 <= value <= 255 {
            Self::from_code(value as u8)
        } else {
            Err(Error::InvalidKeySwitchTechnique(value as usize))
        }
    }

    /// The technique that a text names, if any.
    pub open spec fn named(text: Seq<char>) -> Option<Self> {
        if text == "Invalid Key Switch Technique"@ {
            Some(KeySwitchTechnique::InvalidKsTech)
        } else if text == "Bv"@ {
            Some(KeySwitchTechnique::Bv)
        } else if text == "Hybrid"@ {
            Some(KeySwitchTechnique::Hybrid)
        } else {
            None
        }
    }

    /// The message of the error for a text that names no technique.
    pub open spec fn unknown_name(text: Seq<char>) -> Seq<char> {
        "invalid string when parsing KeySwitchTechnique: '"@ + text + "'"@
    }

    /// The name of the technique.
    pub fn to_string(&self) -> (text: String)
        ensures
            text@ == self.name(),
    {
        match self {
            KeySwitchTechnique::InvalidKsTech => "Invalid Key Switch Technique".to_owned(),
            KeySwitchTechnique::Bv => "Bv".to_owned(),
            KeySwitchTechnique::Hybrid => "Hybrid".to_owned(),
        }
    }

    /// The technique whose code is `value`, for a code held in an integer of
    /// any width. A value that is no code comes back in the error, cut to the
    /// width of `usize`.
    pub fn try_from_int(value: i128) -> (r: Result<Self, Error>)
        ensures
            r == Self::from_int(value),
    {
        if 0 <= value && value <= 255 {
            KeySwitchTechnique::try_from(value as u8)
        } else {
            Err(Error::InvalidKeySwitchTechnique(#[verifier::truncate] (value as usize)))
        }
    }

    /// The code of every technique converts back to the technique.
    pub proof fn lemma_code_round_trip(value: Self)
        ensures
            Self::from_code(value.code()) == Ok::<Self, Error>(value),
            Self::from_int(value.code() as i128) == Ok::<Self, Error>(value),
    {
    }

    /// The name of every technique parses back to the technique.
    pub proof fn lemma_name_round_trip(value: Self)
        ensures
            Self::named(value.name()) == Some(value),
    {
        Self::lemma_names_differ();
        assert(KeySwitchTechnique::InvalidKsTech.name() == "Invalid Key Switch Technique"@);
        assert(KeySwitchTechnique::Bv.name() == "Bv"@);
        assert(KeySwitchTechnique::Hybrid.name() == "Hybrid"@);
    }

    /// A number converts to a technique only if it is the code of that
    /// technique; any other number is rejected with an error that holds it.
    pub proof fn lemma_only_codes_convert(code: u8)
        ensures
            match Self::from_code(code) {
                Ok(value) => value.code() == code,
                Err(e) => {
                    &&& e == Error::InvalidKeySwitchTechnique(code as usize)
                    &&& forall|value: Self| #[trigger] value.code() != code
                },
            },
    {
    }

    /// A text parses to a technique only if it is the name of that technique;
    /// any other text is rejected.
    pub proof fn lemma_only_names_parse(text: Seq<char>)
        ensures
            match Self::named(text) {
                Some(value) => value.name() == text,
                None => forall|value: Self| #[trigger] value.name() != text,
            },
    {
    }

    /// No two techniques have the same name.
    proof fn lemma_names_differ()
        ensures
            forall|x: Self, y: Self| #[trigger] x.name() == #[trigger] y.name() ==> x == y,
    {
        reveal_strlit("Invalid Key Switch Technique");
        reveal_strlit("Bv");
        reveal_strlit("Hybrid");
        assert forall|x: Self, y: Self| #[trigger] x.name() == #[trigger] y.name() implies x
            == y by {
            assert(x.name().len() == y.name().len());
        }
    }
}

impl TryFrom<u8> for KeySwitchTechnique {
    type Error = Error;

    /// The technique whose code is `value`; an error that holds `value` if it
    /// is the code of no technique.
    fn try_from(value: u8) -> (r: Result<Self, Error>)
        ensures
            r == Self::from_code(value),
    {
        match value {
            0 => Ok(KeySwitchTechnique::InvalidKsTech),
            1 => Ok(KeySwitchTechnique::Bv),
            2 => Ok(KeySwitchTechnique::Hybrid),
            _ => Err(Error::InvalidKeySwitchTechnique(value as usize)),
        }
    }
}

impl TryFromSpecImpl<u8> for KeySwitchTechnique {
    open spec fn obeys_try_from_spec() -> bool {
        true
    }

    open spec fn try_from_spec(value: u8) -> Result<Self, Error> {
        Self::from_code(value)
    }
}

impl From<KeySwitchTechnique> for u8 {
    /// The numeric code of the technique.
    fn from(value: KeySwitchTechnique) -> (code: u8)
        ensures
            code == value.code(),
    {
        match value {
            KeySwitchTechnique::InvalidKsTech => 0,
            KeySwitchTechnique::Bv => 1,
            KeySwitchTechnique::Hybrid => 2,
        }
    }
}

impl FromSpecImpl<KeySwitchTechnique> for u8 {
    open spec fn obeys_from_spec() -> bool {
        true
    }

    open spec fn from_spec(value: KeySwitchTechnique) -> u8 {
        value.code()
    }
}

impl FromStr for KeySwitchTechnique {
    type Err = Error;

    /// The technique that `s` names; an error whose message quotes `s` if it
    /// names none.
    fn from_str(s: &str) -> (r: Result<Self, Error>)
        ensures
            match Self::named(s@) {
                Some(value) => r == Ok::<Self, Error>(value),
                None => {
                    &&& r matches Err(Error::ParseError(message))
                    &&& message@ == Self::unknown_name(s@)
                },
            },
    {
        if same_text(s, "Invalid Key Switch Technique") {
            Ok(KeySwitchTechnique::InvalidKsTech)
        } else if same_text(s, "Bv") {
            Ok(KeySwitchTechnique::Bv)
        } else if same_text(s, "Hybrid") {
            Ok(KeySwitchTechnique::Hybrid)
        } else {
            Err(
                Error::ParseError(
                    quoted(
                        "invalid string when parsing KeySwitchTechnique: '",
                        s,
                        "'",
                    ),
                ),
            )
        }
    }
}

impl Default for KeySwitchTechnique {
    /// `InvalidKsTech`.
    fn default() -> (value: Self)
        ensures
            value == KeySwitchTechnique::InvalidKsTech,
    {
        KeySwitchTechnique::InvalidKsTech
    }
}

// The code in the wider integer types.
impl From<KeySwitchTechnique> for i8 {
    /// The numeric code of the technique, as `i8`.
    fn from(value: KeySwitchTechnique) -> (code: i8)
        ensures
            code == value.code(),
    {
        u8::from(value) as i8
    }
}

impl FromSpecImpl<KeySwitchTechnique> for i8 {
    open spec fn obeys_from_spec() -> bool {
        true
    }

    open spec fn from_spec(value: KeySwitchTechnique) -> i8 {
        value.code() as i8
    }
}

impl From<KeySwitchTechnique> for u16 {
    /// The numeric code of the technique, as `u16`.
    fn from(value: KeySwitchTechnique) -> (code: u16)
        ensures
            code == value.code(),
    {
        u8::from(value) as u16
    }
}

impl FromSpecImpl<KeySwitchTechnique> for u16 {
    open spec fn obeys_from_spec() -> bool {
        true
    }

    open spec fn from_spec(value: KeySwitchTechnique) -> u16 {
        value.code() as u16
    }
}

impl From<KeySwitchTechnique> for i16 {
    /// The numeric code of the technique, as `i16`.
    fn from(value: KeySwitchTechnique) -> (code: i16)
        ensures
            code == value.code(),
    {
        u8::from(value) as i16
    }
}

impl FromSpecImpl<KeySwitchTechnique> for i16 {
    open spec fn obeys_from_spec() -> bool {
        true
    }

    open spec fn from_spec(value: KeySwitchTechnique) -> i16 {
        value.code() as i16
    }
}

impl From<KeySwitchTechnique> for u32 {
    /// The numeric code of the technique, as `u32`.
    fn from(value: KeySwitchTechnique) -> (code: u32)
        ensures
            code == value.code(),
    {
        u8::from(value) as u32
    }
}

impl FromSpecImpl<KeySwitchTechnique> for u32 {
    open spec fn obeys_from_spec() -> bool {
        true
    }

    open spec fn from_spec(value: KeySwitchTechnique) -> u32 {
        value.code() as u32
    }
}

impl From<KeySwitchTechnique> for i32 {
    /// The numeric code of the technique, as `i32`.
    fn from(value: KeySwitchTechnique) -> (code: i32)
        ensures
            code == value.code(),
    {
        u8::from(value) as i32
    }
}

impl FromSpecImpl<KeySwitchTechnique> for i32 {
    open spec fn obeys_from_spec() -> bool {
        true
    }

    open spec fn from_spec(value: KeySwitchTechnique) -> i32 {
        value.code() as i32
    }
}

impl From<KeySwitchTechnique> for u64 {
    /// The numeric code of the technique, as `u64`.
    fn from(value: KeySwitchTechnique) -> (code: u64)
        ensures
            code == value.code(),
    {
        u8::from(value) as u64
    }
}

impl FromSpecImpl<KeySwitchTechnique> for u64 {
    open spec fn obeys_from_spec() -> bool {
        true
    }

    open spec fn from_spec(value: KeySwitchTechnique) -> u64 {
        value.code() as u64
    }
}

impl From<KeySwitchTechnique> for i64 {
    /// The numeric code of the technique, as `i64`.
    fn from(value: KeySwitchTechnique) -> (code: i64)
        ensures
            code == value.code(),
    {
        u8::from(value) as i64
    }
}

impl FromSpecImpl<KeySwitchTechnique> for i64 {
    open spec fn obeys_from_spec() -> bool {
        true
    }

    open spec fn from_spec(value: KeySwitchTechnique) -> i64 {
        value.code() as i64
    }
}

impl From<KeySwitchTechnique> for usize {
    /// The numeric code of the technique, as `usize`.
    fn from(value: KeySwitchTechnique) -> (code: usize)
        ensures
            code == value.code(),
    {
        u8::from(value) as usize
    }
}

impl FromSpecImpl<KeySwitchTechnique> for usize {
    open spec fn obeys_from_spec() -> bool {
        true
    }

    open spec fn from_spec(value: KeySwitchTechnique) -> usize {
        value.code() as usize
    }
}

impl From<KeySwitchTechnique> for isize {
    /// The numeric code of the technique, as `isize`.
    fn from(value: KeySwitchTechnique) -> (code: isize)
        ensures
            code == value.code(),
    {
        u8::from(value) as isize
    }
}

impl FromSpecImpl<KeySwitchTechnique> for isize {
    open spec fn obeys_from_spec() -> bool {
        true
    }

    open spec fn from_spec(value: KeySwitchTechnique) -> isize {
        value.code() as isize
    }
}

// The code out of the wider integer types.
impl TryFrom<i8> for KeySwitchTechnique {
    type Error = Error;

    /// The technique whose code is `value`; an error that holds `value` as a
    /// `usize` if it is the code of no technique.
    fn try_from(value: i8) -> (r: Result<Self, Error>)
        ensures
            r == Self::from_int(value as i128),
    {
        KeySwitchTechnique::try_from_int(value as i128)
    }
}

impl TryFromSpecImpl<i8> for KeySwitchTechnique {
    open spec fn obeys_try_from_spec() -> bool {
        true
    }

    open spec fn try_from_spec(value: i8) -> Result<Self, Error> {
        Self::from_int(value as i128)
    }
}

impl TryFrom<u16> for KeySwitchTechnique {
    type Error = Error;

    /// The technique whose code is `value`; an error that holds `value` as a
    /// `usize` if it is the code of no technique.
    fn try_from(value: u16) -> (r: Result<Self, Error>)
        ensures
            r == Self::from_int(value as i128),
    {
        KeySwitchTechnique::try_from_int(value as i128)
    }
}

impl TryFromSpecImpl<u16> for KeySwitchTechnique {
    open spec fn obeys_try_from_spec() -> bool {
        true
    }

    open spec fn try_from_spec(value: u16) -> Result<Self, Error> {
        Self::from_int(value as i128)
    }
}

impl TryFrom<i16> for KeySwitchTechnique {
    type Error = Error;

    /// The technique whose code is `value`; an error that holds `value` as a
    /// `usize` if it is the code of no technique.
    fn try_from(value: i16) -> (r: Result<Self, Error>)
        ensures
            r == Self::from_int(value as i128),
    {
        KeySwitchTechnique::try_from_int(value as i128)
    }
}

impl TryFromSpecImpl<i16> for KeySwitchTechnique {
    open spec fn obeys_try_from_spec() -> bool {
        true
    }

    open spec fn try_from_spec(value: i16) -> Result<Self, Error> {
        Self::from_int(value as i128)
    }
}

impl TryFrom<u32> for KeySwitchTechnique {
    type Error = Error;

    /// The technique whose code is `value`; an error that holds `value` as a
    /// `usize` if it is the code of no technique.
    fn try_from(value: u32) -> (r: Result<Self, Error>)
        ensures
            r == Self::from_int(value as i128),
    {
        KeySwitchTechnique::try_from_int(value as i128)
    }
}

impl TryFromSpecImpl<u32> for KeySwitchTechnique {
    open spec fn obeys_try_from_spec() -> bool {
        true
    }

    open spec fn try_from_spec(value: u32) -> Result<Self, Error> {
        Self::from_int(value as i128)
    }
}

impl TryFrom<i32> for KeySwitchTechnique {
    type Error = Error;

    /// The technique whose code is `value`; an error that holds `value` as a
    /// `usize` if it is the code of no technique.
    fn try_from(value: i32) -> (r: Result<Self, Error>)
        ensures
            r == Self::from_int(value as i128),
    {
        KeySwitchTechnique::try_from_int(value as i128)
    }
}

impl TryFromSpecImpl<i32> for KeySwitchTechnique {
    open spec fn obeys_try_from_spec() -> bool {
        true
    }

    open spec fn try_from_spec(value: i32) -> Result<Self, Error> {
        Self::from_int(value as i128)
    }
}

impl TryFrom<u64> for KeySwitchTechnique {
    type Error = Error;

    /// The technique whose code is `value`; an error that holds `value` as a
    /// `usize` if it is the code of no technique.
    fn try_from(value: u64) -> (r: Result<Self, Error>)
        ensures
            r == Self::from_int(value as i128),
    {
        KeySwitchTechnique::try_from_int(value as i128)
    }
}

impl TryFromSpecImpl<u64> for KeySwitchTechnique {
    open spec fn obeys_try_from_spec() -> bool {
        true
    }

    open spec fn try_from_spec(value: u64) -> Result<Self, Error> {
        Self::from_int(value as i128)
    }
}

impl TryFrom<i64> for KeySwitchTechnique {
    type Error = Error;

    /// The technique whose code is `value`; an error that holds `value` as a
    /// `usize` if it is the code of no technique.
    fn try_from(value: i64) -> (r: Result<Self, Error>)
        ensures
            r == Self::from_int(value as i128),
    {
        KeySwitchTechnique::try_from_int(value as i128)
    }
}

impl TryFromSpecImpl<i64> for KeySwitchTechnique {
    open spec fn obeys_try_from_spec() -> bool {
        true
    }

    open spec fn try_from_spec(value: i64) -> Result<Self, Error> {
        Self::from_int(value as i128)
    }
}

impl TryFrom<usize> for KeySwitchTechnique {
    type Error = Error;

    /// The technique whose code is `value`; an error that holds `value` as a
    /// `usize` if it is the code of no technique.
    fn try_from(value: usize) -> (r: Result<Self, Error>)
        ensures
            r == Self::from_int(value as i128),
    {
        KeySwitchTechnique::try_from_int(value as i128)
    }
}

impl TryFromSpecImpl<usize> for KeySwitchTechnique {
    open spec fn obeys_try_from_spec() -> bool {
        true
    }

    open spec fn try_from_spec(value: usize) -> Result<Self, Error> {
        Self::from_int(value as i128)
    }
}

impl TryFrom<isize> for KeySwitchTechnique {
    type Error = Error;

    /// The technique whose code is `value`; an error that holds `value` as a
    /// `usize` if it is the code of no technique.
    fn try_from(value: isize) -> (r: Result<Self, Error>)
        ensures
            r == Self::from_int(value as i128),
    {
        KeySwitchTechnique::try_from_int(value as i128)
    }
}

impl TryFromSpecImpl<isize> for KeySwitchTechnique {
    open spec fn obeys_try_from_spec() -> bool {
        true
    }

    open spec fn try_from_spec(value: isize) -> Result<Self, Error> {
        Self::from_int(value as i128)
    }
}

} // verus!
