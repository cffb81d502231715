//! The features of a public key encryption scheme.

use crate::error::Error;
use crate::fhe_core::text::{quoted, same_text};
use std::str::FromStr;
use vstd::prelude::*;
use vstd::std_specs::convert::{FromSpecImpl, TryFromSpecImpl};

verus! {

/// All features supported by public key encryption schemes. Each code is a
/// single bit of a byte.
#[derive(Debug, Clone, Copy, PartialEq, Eq, Structural)]
pub enum PkeSchemeFeature {
    /// Public Key Encryption
    Pke,
    /// Key Switching
    KeySwitch,
    /// Proxy Re-Encryption
    Pre,
    /// Leveled somewhat homomorphic encryption
    LeveledShe,
    /// Advanced somewhat homomorphic encryption
    AdvancedShe,
    /// Multiparty (threshold) encryption
    MultiParty,
    /// Fully homomorphic encryption
    Fhe,
    /// Switching between schemes
    SchemeSwitch,
}

impl PkeSchemeFeature {
    /// The numeric code of a feature, as it goes on the wire.
    pub open spec fn code(self) -> u8 {
        match self {
            PkeSchemeFeature::Pke => 0x01,
            PkeSchemeFeature::KeySwitch => 0x02,
            PkeSchemeFeature::Pre => 0x04,
            PkeSchemeFeature::LeveledShe => 0x08,
            PkeSchemeFeature::AdvancedShe => 0x10,
            PkeSchemeFeature::MultiParty => 0x20,
            PkeSchemeFeature::Fhe => 0x40,
            PkeSchemeFeature::SchemeSwitch => 0x80,
        }
    }

    /// The name of a feature, as it is displayed.
    pub open spec fn name(self) -> Seq<char> {
        match self {
            PkeSchemeFeature::Pke => "Pke"@,
            PkeSchemeFeature::KeySwitch => "KeySwitch"@,
            PkeSchemeFeature::Pre => "Pre"@,
            PkeSchemeFeature::LeveledShe => "LeveledShe"@,
            PkeSchemeFeature::AdvancedShe => "AdvancedShe"@,
            PkeSchemeFeature::MultiParty => "Multiparty"@,
            PkeSchemeFeature::Fhe => "Fhe"@,
            PkeSchemeFeature::SchemeSwitch => "SchemeSwitch"@,
        }
    }

    /// The feature that a number is the code of; the error that holds the
    /// number if it is the code of none.
    pub open spec fn from_code(value: u8) -> Result<Self, Error> {
        if value == 0x01 {
            Ok(PkeSchemeFeature::Pke)
        } else if value == 0x02 {
            Ok(PkeSchemeFeature::KeySwitch)
        } else if value == 0x04 {
            Ok(PkeSchemeFeature::Pre)
        } else if value == 0x08 {
            Ok(PkeSchemeFeature::LeveledShe)
        } else if value == 0x10 {
            Ok(PkeSchemeFeature::AdvancedShe)
        } else if value == 0x20 {
            Ok(PkeSchemeFeature::MultiParty)
        } else if value == 0x40 {
            Ok(PkeSchemeFeature::Fhe)
        } else if value == 0x80 {
            Ok(PkeSchemeFeature::SchemeSwitch)
        } else {
            Err(Error::InvalidPkeSchemeFeature(value as usize))
        }
    }

    /// The feature that an integer of any width is the code of; the error that
    /// holds the integer, cut to the width of `usize`, if it is the code of
    /// none.
    pub open spec fn from_int(value: i128) -> Result<Self, Error> {
        if 0 <= value <= 255 {
            Self::from_code(value as u8)
        } else {
            Err(Error::InvalidPkeSchemeFeature(value as usize))
        }
    }

    /// The feature that a text names, if any.
    pub open spec fn named(text: Seq<char>) -> Option<Self> {
        if text == "Pke"@ {
            Some(PkeSchemeFeature::Pke)
        } else if text == "KeySwitch"@ {
            Some(PkeSchemeFeature::KeySwitch)
        } else if text == "Pre"@ {
            Some(PkeSchemeFeature::Pre)
        } else if text == "LeveledShe"@ {
            Some(PkeSchemeFeature::LeveledShe)
        } else if text == "AdvancedShe"@ {
            Some(PkeSchemeFeature::AdvancedShe)
        } else if text == "Multiparty"@ {
            Some(PkeSchemeFeature::MultiParty)
        } else if text == "Fhe"@ {
            Some(PkeSchemeFeature::Fhe)
        } else if text == "SchemeSwitch"@ {
            Some(PkeSchemeFeature::SchemeSwitch)
        } else {
            None
        }
    }

    /// The message of the error for a text that names no feature.
    pub open spec fn unknown_name(text: Seq<char>) -> Seq<char> {
        "invalid string when parsing PkeSchemeFeature: '"@ + text + "'"@
    }

    /// The name of the feature.
    pub fn to_string(&self) -> (text: String)
        ensures
            text@ == self.name(),
    {
        match self {
            PkeSchemeFeature::Pke => "Pke".to_owned(),
            PkeSchemeFeature::KeySwitch => "KeySwitch".to_owned(),
            PkeSchemeFeature::Pre => "Pre".to_owned(),
            PkeSchemeFeature::LeveledShe => "LeveledShe".to_owned(),
            PkeSchemeFeature::AdvancedShe => "AdvancedShe".to_owned(),
            PkeSchemeFeature::MultiParty => "Multiparty".to_owned(),
            PkeSchemeFeature::Fhe => "Fhe".to_owned(),
            PkeSchemeFeature::SchemeSwitch => "SchemeSwitch".to_owned(),
        }
    }

    /// The feature whose code is `value`, for a code held in an integer of any
    /// width. A value that is no code comes back in the error, cut to the
    /// width of `usize`.
    pub fn try_from_int(value: i128) -> (r: Result<Self, Error>)
        ensures
            r == Self::from_int(value),
    {
        if 0 <= value && value <= 255 {
            PkeSchemeFeature::try_from(value as u8)
        } else {
            Err(Error::InvalidPkeSchemeFeature(#[verifier::truncate] (value as usize)))
        }
    }

    /// The code of every feature converts back to the feature.
    pub proof fn lemma_code_round_trip(value: Self)
        ensures
            Self::from_code(value.code()) == Ok::<Self, Error>(value),
            Self::from_int(value.code() as i128) == Ok::<Self, Error>(value),
    {
    }

    /// The name of every feature parses back to the feature.
    pub proof fn lemma_name_round_trip(value: Self)
        ensures
            Self::named(value.name()) == Some(value),
    {
        Self::lemma_names_differ();
        assert(PkeSchemeFeature::Pke.name() == "Pke"@);
        assert(PkeSchemeFeature::KeySwitch.name() == "KeySwitch"@);
        assert(PkeSchemeFeature::Pre.name() == "Pre"@);
        assert(PkeSchemeFeature::LeveledShe.name() == "LeveledShe"@);
        assert(PkeSchemeFeature::AdvancedShe.name() == "AdvancedShe"@);
        assert(PkeSchemeFeature::MultiParty.name() == "Multiparty"@);
        assert(PkeSchemeFeature::Fhe.name() == "Fhe"@);
        assert(PkeSchemeFeature::SchemeSwitch.name() == "SchemeSwitch"@);
    }

    /// A number converts to a feature only if it is the code of that feature;
    /// any other number is rejected with an error that holds it.
    pub proof fn lemma_only_codes_convert(code: u8)
        ensures
            match Self::from_code(code) {
                Ok(value) => value.code() == code,
                Err(e) => {
                    &&& e == Error::InvalidPkeSchemeFeature(code as usize)
                    &&& forall|value: Self| #[trigger] value.code() != code
                },
            },
    {
    }

    /// A text parses to a feature only if it is the name of that feature; any
    /// other text is rejected.
    pub proof fn lemma_only_names_parse(text: Seq<char>)
        ensures
            match Self::named(text) {
                Some(value) => value.name() == text,
                None => forall|value: Self| #[trigger] value.name() != text,
            },
    {
    }

    /// No two features have the same name.
    proof fn lemma_names_differ()
        ensures
            forall|x: Self, y: Self| #[trigger] x.name() == #[trigger] y.name() ==> x == y,
    {
        reveal_strlit("Pke");
        reveal_strlit("KeySwitch");
        reveal_strlit("Pre");
        reveal_strlit("LeveledShe");
        reveal_strlit("AdvancedShe");
        reveal_strlit("Multiparty");
        reveal_strlit("Fhe");
        reveal_strlit("SchemeSwitch");
        assert forall|x: Self, y: Self| #[trigger] x.name() == #[trigger] y.name() implies x
            == y by {
            // names of one length differ in one of these places
            assert(x.name().len() == y.name().len());
            assert(x.name()[0] == y.name()[0]);
            assert(x.name()[1] == y.name()[1]);
        }
    }
}

impl TryFrom<u8> for PkeSchemeFeature {
    type Error = Error;

    /// The feature whose code is `value`; an error that holds `value` if it is
    /// the code of no feature.
    fn try_from(value: u8) -> (r: Result<Self, Error>)
        ensures
            r == Self::from_code(value),
    {
        match value {
            0x01 => Ok(PkeSchemeFeature::Pke),
            0x02 => Ok(PkeSchemeFeature::KeySwitch),
            0x04 => Ok(PkeSchemeFeature::Pre),
            0x08 => Ok(PkeSchemeFeature::LeveledShe),
            0x10 => Ok(PkeSchemeFeature::AdvancedShe),
            0x20 => Ok(PkeSchemeFeature::MultiParty),
            0x40 => Ok(PkeSchemeFeature::Fhe),
            0x80 => Ok(PkeSchemeFeature::SchemeSwitch),
            _ => Err(Error::InvalidPkeSchemeFeature(value as usize)),
        }
    }
}

impl TryFromSpecImpl<u8> for PkeSchemeFeature {
    open spec fn obeys_try_from_spec() -> bool {
        true
    }

    open spec fn try_from_spec(value: u8) -> Result<Self, Error> {
        Self::from_code(value)
    }
}

impl From<PkeSchemeFeature> for u8 {
    /// The numeric code of the feature.
    fn from(value: PkeSchemeFeature) -> (code: u8)
        ensures
            code == value.code(),
    {
        match value {
            PkeSchemeFeature::Pke => 0x01,
            PkeSchemeFeature::KeySwitch => 0x02,
            PkeSchemeFeature::Pre => 0x04,
            PkeSchemeFeature::LeveledShe => 0x08,
            PkeSchemeFeature::AdvancedShe => 0x10,
            PkeSchemeFeature::MultiParty => 0x20,
            PkeSchemeFeature::Fhe => 0x40,
            PkeSchemeFeature::SchemeSwitch => 0x80,
        }
    }
}

impl FromSpecImpl<PkeSchemeFeature> for u8 {
    open spec fn obeys_from_spec() -> bool {
        true
    }

    open spec fn from_spec(value: PkeSchemeFeature) -> u8 {
        value.code()
    }
}

impl FromStr for PkeSchemeFeature {
    type Err = Error;

    /// The feature that `s` names; an error whose message quotes `s` if it
    /// names none.
    fn from_str(s: &str) -> (r: Result<Self, Error>)
        ensures
            match Self::named(s@) {
                Some(value) => r == Ok::<Self, Error>(value),
                None => {
                    &&& r matches Err(Error::ParseError(message))
                    &&& message@ == Self::unknown_name(s@)
                },
            },
    {
        if same_text(s, "Pke") {
            Ok(PkeSchemeFeature::Pke)
        } else if same_text(s, "KeySwitch") {
            Ok(PkeSchemeFeature::KeySwitch)
        } else if same_text(s, "Pre") {
            Ok(PkeSchemeFeature::Pre)
        } else if same_text(s, "LeveledShe") {
            Ok(PkeSchemeFeature::LeveledShe)
        } else if same_text(s, "AdvancedShe") {
            Ok(PkeSchemeFeature::AdvancedShe)
        } else if same_text(s, "Multiparty") {
            Ok(PkeSchemeFeature::MultiParty)
        } else if same_text(s, "Fhe") {
            Ok(PkeSchemeFeature::Fhe)
        } else if same_text(s, "SchemeSwitch") {
            Ok(PkeSchemeFeature::SchemeSwitch)
        } else {
            Err(
                Error::ParseError(
                    quoted(
                        "invalid string when parsing PkeSchemeFeature: '",
                        s,
                        "'",
                    ),
                ),
            )
        }
    }
}

// The code in the wider integer types.
impl From<PkeSchemeFeature> for i8 {
    /// The numeric code of the feature, as the `i8` with the same bits: a code
    /// from 128 on comes out 256 less.
    fn from(value: PkeSchemeFeature) -> (code: i8)
        ensures
            code == if value.code() < 128 {
                value.code() as int
            } else {
                value.code() - 256
            },
    {
        let byte = u8::from(value);
        if byte < 128 {
            byte as i8
        } else {
            (byte as i16 - 256) as i8
        }
    }
}

impl FromSpecImpl<PkeSchemeFeature> for i8 {
    open spec fn obeys_from_spec() -> bool {
        true
    }

    open spec fn from_spec(value: PkeSchemeFeature) -> i8 {
        if value.code() < 128 {
            value.code() as i8
        } else {
            (value.code() - 256) as i8
        }
    }
}

impl From<PkeSchemeFeature> for u16 {
    /// The numeric code of the feature, as `u16`.
    fn from(value: PkeSchemeFeature) -> (code: u16)
        ensures
            code == value.code(),
    {
        u8::from(value) as u16
    }
}

impl FromSpecImpl<PkeSchemeFeature> for u16 {
    open spec fn obeys_from_spec() -> bool {
        true
    }

    open spec fn from_spec(value: PkeSchemeFeature) -> u16 {
        value.code() as u16
    }
}

impl From<PkeSchemeFeature> for i16 {
    /// The numeric code of the feature, as `i16`.
    fn from(value: PkeSchemeFeature) -> (code: i16)
        ensures
            code == value.code(),
    {
        u8::from(value) as i16
    }
}

impl FromSpecImpl<PkeSchemeFeature> for i16 {
    open spec fn obeys_from_spec() -> bool {
        true
    }

    open spec fn from_spec(value: PkeSchemeFeature) -> i16 {
        value.code() as i16
    }
}

impl From<PkeSchemeFeature> for u32 {
    /// The numeric code of the feature, as `u32`.
    fn from(value: PkeSchemeFeature) -> (code: u32)
        ensures
            code == value.code(),
    {
        u8::from(value) as u32
    }
}

impl FromSpecImpl<PkeSchemeFeature> for u32 {
    open spec fn obeys_from_spec() -> bool {
        true
    }

    open spec fn from_spec(value: PkeSchemeFeature) -> u32 {
        value.code() as u32
    }
}

impl From<PkeSchemeFeature> for i32 {
    /// The numeric code of the feature, as `i32`.
    fn from(value: PkeSchemeFeature) -> (code: i32)
        ensures
            code == value.code(),
    {
        u8::from(value) as i32
    }
}

impl FromSpecImpl<PkeSchemeFeature> for i32 {
    open spec fn obeys_from_spec() -> bool {
        true
    }

    open spec fn from_spec(value: PkeSchemeFeature) -> i32 {
        value.code() as i32
    }
}

impl From<PkeSchemeFeature> for u64 {
    /// The numeric code of the feature, as `u64`.
    fn from(value: PkeSchemeFeature) -> (code: u64)
        ensures
            code == value.code(),
    {
        u8::from(value) as u64
    }
}

impl FromSpecImpl<PkeSchemeFeature> for u64 {
    open spec fn obeys_from_spec() -> bool {
        true
    }

    open spec fn from_spec(value: PkeSchemeFeature) -> u64 {
        value.code() as u64
    }
}

impl From<PkeSchemeFeature> for i64 {
    /// The numeric code of the feature, as `i64`.
    fn from(value: PkeSchemeFeature) -> (code: i64)
        ensures
            code == value.code(),
    {
        u8::from(value) as i64
    }
}

impl FromSpecImpl<PkeSchemeFeature> for i64 {
    open spec fn obeys_from_spec() -> bool {
        true
    }

    open spec fn from_spec(value: PkeSchemeFeature) -> i64 {
        value.code() as i64
    }
}

impl From<PkeSchemeFeature> for usize {
    /// The numeric code of the feature, as `usize`.
    fn from(value: PkeSchemeFeature) -> (code: usize)
        ensures
            code == value.code(),
    {
        u8::from(value) as usize
    }
}

impl FromSpecImpl<PkeSchemeFeature> for usize {
    open spec fn obeys_from_spec() -> bool {
        true
    }

    open spec fn from_spec(value: PkeSchemeFeature) -> usize {
        value.code() as usize
    }
}

impl From<PkeSchemeFeature> for isize {
    /// The numeric code of the feature, as `isize`.
    fn from(value: PkeSchemeFeature) -> (code: isize)
        ensures
            code == value.code(),
    {
        u8::from(value) as isize
    }
}

impl FromSpecImpl<PkeSchemeFeature> for isize {
    open spec fn obeys_from_spec() -> bool {
        true
    }

    open spec fn from_spec(value: PkeSchemeFeature) -> isize {
        value.code() as isize
    }
}

// The code out of the wider integer types.
impl TryFrom<i8> for PkeSchemeFeature {
    type Error = Error;

    /// The feature whose code is `value`; an error that holds `value` as a
    /// `usize` if it is the code of no feature.
    fn try_from(value: i8) -> (r: Result<Self, Error>)
        ensures
            r == Self::from_int(value as i128),
    {
        PkeSchemeFeature::try_from_int(value as i128)
    }
}

impl TryFromSpecImpl<i8> for PkeSchemeFeature {
    open spec fn obeys_try_from_spec() -> bool {
        true
    }

    open spec fn try_from_spec(value: i8) -> Result<Self, Error> {
        Self::from_int(value as i128)
    }
}

impl TryFrom<u16> for PkeSchemeFeature {
    type Error = Error;

    /// The feature whose code is `value`; an error that holds `value` as a
    /// `usize` if it is the code of no feature.
    fn try_from(value: u16) -> (r: Result<Self, Error>)
        ensures
            r == Self::from_int(value as i128),
    {
        PkeSchemeFeature::try_from_int(value as i128)
    }
}

impl TryFromSpecImpl<u16> for PkeSchemeFeature {
    open spec fn obeys_try_from_spec() -> bool {
        true
    }

    open spec fn try_from_spec(value: u16) -> Result<Self, Error> {
        Self::from_int(value as i128)
    }
}

impl TryFrom<i16> for PkeSchemeFeature {
    type Error = Error;

    /// The feature whose code is `value`; an error that holds `value` as a
    /// `usize` if it is the code of no feature.
    fn try_from(value: i16) -> (r: Result<Self, Error>)
        ensures
            r == Self::from_int(value as i128),
    {
        PkeSchemeFeature::try_from_int(value as i128)
    }
}

impl TryFromSpecImpl<i16> for PkeSchemeFeature {
    open spec fn obeys_try_from_spec() -> bool {
        true
    }

    open spec fn try_from_spec(value: i16) -> Result<Self, Error> {
        Self::from_int(value as i128)
    }
}

impl TryFrom<u32> for PkeSchemeFeature {
    type Error = Error;

    /// The feature whose code is `value`; an error that holds `value` as a
    /// `usize` if it is the code of no feature.
    fn try_from(value: u32) -> (r: Result<Self, Error>)
        ensures
            r == Self::from_int(value as i128),
    {
        PkeSchemeFeature::try_from_int(value as i128)
    }
}

impl TryFromSpecImpl<u32> for PkeSchemeFeature {
    open spec fn obeys_try_from_spec() -> bool {
        true
    }

    open spec fn try_from_spec(value: u32) -> Result<Self, Error> {
        Self::from_int(value as i128)
    }
}

impl TryFrom<i32> for PkeSchemeFeature {
    type Error = Error;

    /// The feature whose code is `value`; an error that holds `value` as a
    /// `usize` if it is the code of no feature.
    fn try_from(value: i32) -> (r: Result<Self, Error>)
        ensures
            r == Self::from_int(value as i128),
    {
        PkeSchemeFeature::try_from_int(value as i128)
    }
}

impl TryFromSpecImpl<i32> for PkeSchemeFeature {
    open spec fn obeys_try_from_spec() -> bool {
        true
    }

    open spec fn try_from_spec(value: i32) -> Result<Self, Error> {
        Self::from_int(value as i128)
    }
}

impl TryFrom<u64> for PkeSchemeFeature {
    type Error = Error;

    /// The feature whose code is `value`; an error that holds `value` as a
    /// `usize` if it is the code of no feature.
    fn try_from(value: u64) -> (r: Result<Self, Error>)
        ensures
            r == Self::from_int(value as i128),
    {
        PkeSchemeFeature::try_from_int(value as i128)
    }
}

impl TryFromSpecImpl<u64> for PkeSchemeFeature {
    open spec fn obeys_try_from_spec() -> bool {
        true
    }

    open spec fn try_from_spec(value: u64) -> Result<Self, Error> {
        Self::from_int(value as i128)
    }
}

impl TryFrom<i64> for PkeSchemeFeature {
    type Error = Error;

    /// The feature whose code is `value`; an error that holds `value` as a
    /// `usize` if it is the code of no feature.
    fn try_from(value: i64) -> (r: Result<Self, Error>)
        ensures
            r == Self::from_int(value as i128),
    {
        PkeSchemeFeature::try_from_int(value as i128)
    }
}

impl TryFromSpecImpl<i64> for PkeSchemeFeature {
    open spec fn obeys_try_from_spec() -> bool {
        true
    }

    open spec fn try_from_spec(value: i64) -> Result<Self, Error> {
        Self::from_int(value as i128)
    }
}

impl TryFrom<usize> for PkeSchemeFeature {
    type Error = Error;

    /// The feature whose code is `value`; an error that holds `value` as a
    /// `usize` if it is the code of no feature.
    fn try_from(value: usize) -> (r: Result<Self, Error>)
        ensures
            r == Self::from_int(value as i128),
    {
        PkeSchemeFeature::try_from_int(value as i128)
    }
}

impl TryFromSpecImpl<usize> for PkeSchemeFeature {
    open spec fn obeys_try_from_spec() -> bool {
        true
    }

    open spec fn try_from_spec(value: usize) -> Result<Self, Error> {
        Self::from_int(value as i128)
    }
}

impl TryFrom<isize> for PkeSchemeFeature {
    type Error = Error;

    /// The feature whose code is `value`; an error that holds `value` as a
    /// `usize` if it is the code of no feature.
    fn try_from(value: isize) -> (r: Result<Self, Error>)
        ensures
            r == Self::from_int(value as i128),
    {
        PkeSchemeFeature::try_from_int(value as i128)
    }
}

impl TryFromSpecImpl<isize> for PkeSchemeFeature {
    open spec fn obeys_try_from_spec() -> bool {
        true
    }

    open spec fn try_from_spec(value: isize) -> Result<Self, Error> {
        Self::from_int(value as i128)
    }
}

} // verus!
