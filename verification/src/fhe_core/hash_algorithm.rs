//! The hash algorithm.

use crate::error::Error;
use crate::fhe_core::text::{quoted, same_text};
use std::str::FromStr;
use vstd::prelude::*;
use vstd::std_specs::convert::{FromSpecImpl, TryFromSpecImpl};

verus! {

/// The Hash Algorithm used for hashing the data.
#[derive(Debug, Clone, Copy, PartialEq, Eq, Structural)]
pub enum HashAlgorithm {
    /// SHA-256
    Sha256,
    /// SHA-512
    Sha512,
}

impl HashAlgorithm {
    /// The numeric code of an algorithm, as it goes on the wire.
    pub open spec fn code(self) -> u8 {
        match self {
            HashAlgorithm::Sha256 => 0,
            HashAlgorithm::Sha512 => 1,
        }
    }

    /// The name of an algorithm, as it is displayed.
    pub open spec fn name(self) -> Seq<char> {
        match self {
            HashAlgorithm::Sha256 => "Sha256"@,
            HashAlgorithm::Sha512 => "Sha512"@,
        }
    }

    /// The algorithm that a number is the code of; the error that holds the
    /// number if it is the code of none.
    pub open spec fn from_code(value: u8) -> Result<Self, Error> {
        if value == 0 {
            Ok(HashAlgorithm::Sha256)
        } else if value == 1 {
            Ok(HashAlgorithm::Sha512)
        } else {
            Err(Error::InvalidHashAlgorithm(value as usize))
        }
    }

    /// The algorithm that an integer of any width is the code of; the error
    /// that holds the integer, cut to the width of `usize`, if it is the code
    /// of none.
    pub open spec fn from_int(value: i128) -> Result<Self, Error> {
        if 0 <= value <= 255 {
            Self::from_code(value as u8)
        } else {
            Err(Error::InvalidHashAlgorithm(value as usize))
        }
    }

    /// The algorithm that a text names, if any.
    pub open spec fn named(text: Seq<char>) -> Option<Self> {
        if text == "Sha256"@ {
            Some(HashAlgorithm::Sha256)
        } else if text == "Sha512"@ {
            Some(HashAlgorithm::Sha512)
        } else {
            None
        }
    }

    /// The message of the error for a text that names no algorithm.
    pub open spec fn unknown_name(text: Seq<char>) -> Seq<char> {
        "invalid string when parsing HashAlgorithm: '"@ + text + "'. Expected 'Sha256' or 'Sha512'"@
    }

    /// The name of the algorithm.
    pub fn to_string(&self) -> (text: String)
        ensures
            text@ == self.name(),
    {
        match self {
            HashAlgorithm::Sha256 => "Sha256".to_owned(),
            HashAlgorithm::Sha512 => "Sha512".to_owned(),
        }
    }

    /// The algorithm whose code is `value`, for a code held in an integer of
    /// any width. A value that is no code comes back in the error, cut to the
    /// width of `usize`.
    pub fn try_from_int(value: i128) -> (r: Result<Self, Error>)
        ensures
            r == Self::from_int(value),
    {
        if 0 <= value && value <= 255 {
            HashAlgorithm::try_from(value as u8)
        } else {
            Err(Error::InvalidHashAlgorithm(#[verifier::truncate] (value as usize)))
        }
    }

    /// The code of every algorithm converts back to the algorithm.
    pub proof fn lemma_code_round_trip(value: Self)
        ensures
            Self::from_code(value.code()) == Ok::<Self, Error>(value),
            Self::from_int(value.code() as i128) == Ok::<Self, Error>(value),
    {
    }

    /// The name of every algorithm parses back to the algorithm.
    pub proof fn lemma_name_round_trip(value: Self)
        ensures
            Self::named(value.name()) == Some(value),
    {
        Self::lemma_names_differ();
        assert(HashAlgorithm::Sha256.name() == "Sha256"@);
        assert(HashAlgorithm::Sha512.name() == "Sha512"@);
    }

    /// A number converts to an algorithm only if it is the code of that
    /// algorithm; any other number is rejected with an error that holds it.
    pub proof fn lemma_only_codes_convert(code: u8)
        ensures
            match Self::from_code(code) {
                Ok(value) => value.code() == code,
                Err(e) => {
                    &&& e == Error::InvalidHashAlgorithm(code as usize)
                    &&& forall|value: Self| #[trigger] value.code() != code
                },
            },
    {
    }

    /// A text parses to an algorithm only if it is the name of that algorithm;
    /// any other text is rejected.
    pub proof fn lemma_only_names_parse(text: Seq<char>)
        ensures
            match Self::named(text) {
                Some(value) => value.name() == text,
                None => forall|value: Self| #[trigger] value.name() != text,
            },
    {
    }

    /// No two algorithms have the same name.
    proof fn lemma_names_differ()
        ensures
            forall|x: Self, y: Self| #[trigger] x.name() == #[trigger] y.name() ==> x == y,
    {
        reveal_strlit("Sha256");
        reveal_strlit("Sha512");
        assert forall|x: Self, y: Self| #[trigger] x.name() == #[trigger] y.name() implies x
            == y by {
            // names of one length differ in one of these places
            assert(x.name().len() == y.name().len());
            assert(x.name()[3] == y.name()[3]);
        }
    }
}

impl TryFrom<u8> for HashAlgorithm {
    type Error = Error;

    /// The algorithm whose code is `value`; an error that holds `value` if it
    /// is the code of no algorithm.
    fn try_from(value: u8) -> (r: Result<Self, Error>)
        ensures
            r == Self::from_code(value),
    {
        match value {
            0 => Ok(HashAlgorithm::Sha256),
            1 => Ok(HashAlgorithm::Sha512),
            _ => Err(Error::InvalidHashAlgorithm(value as usize)),
        }
    }
}

impl TryFromSpecImpl<u8> for HashAlgorithm {
    open spec fn obeys_try_from_spec() -> bool {
        true
    }

    open spec fn try_from_spec(value: u8) -> Result<Self, Error> {
        Self::from_code(value)
    }
}

impl From<HashAlgorithm> for u8 {
    /// The numeric code of the algorithm.
    fn from(value: HashAlgorithm) -> (code: u8)
        ensures
            code == value.code(),
    {
        match value {
            HashAlgorithm::Sha256 => 0,
            HashAlgorithm::Sha512 => 1,
        }
    }
}

impl FromSpecImpl<HashAlgorithm> for u8 {
    open spec fn obeys_from_spec() -> bool {
        true
    }

    open spec fn from_spec(value: HashAlgorithm) -> u8 {
        value.code()
    }
}

impl FromStr for HashAlgorithm {
    type Err = Error;

    /// The algorithm that `s` names; an error whose message quotes `s` if it
    /// names none.
    fn from_str(s: &str) -> (r: Result<Self, Error>)
        ensures
            match Self::named(s@) {
                Some(value) => r == Ok::<Self, Error>(value),
                None => {
                    &&& r matches Err(Error::ParseError(message))
                    &&& message@ == Self::unknown_name(s@)
                },
            },
    {
        if same_text(s, "Sha256") {
            Ok(HashAlgorithm::Sha256)
        } else if same_text(s, "Sha512") {
            Ok(HashAlgorithm::Sha512)
        } else {
            Err(
                Error::ParseError(
                    quoted(
                        "invalid string when parsing HashAlgorithm: '",
                        s,
                        "'. Expected 'Sha256' or 'Sha512'",
                    ),
                ),
            )
        }
    }
}

impl Default for HashAlgorithm {
    /// `Sha256`.
    fn default() -> (value: Self)
        ensures
            value == HashAlgorithm::Sha256,
    {
        HashAlgorithm::Sha256
    }
}

// The code in the wider integer types.
impl From<HashAlgorithm> for i8 {
    /// The numeric code of the algorithm, as `i8`.
    fn from(value: HashAlgorithm) -> (code: i8)
        ensures
            code == value.code(),
    {
        u8::from(value) as i8
    }
}

impl FromSpecImpl<HashAlgorithm> for i8 {
    open spec fn obeys_from_spec() -> bool {
        true
    }

    open spec fn from_spec(value: HashAlgorithm) -> i8 {
        value.code() as i8
    }
}

impl From<HashAlgorithm> for u16 {
    /// The numeric code of the algorithm, as `u16`.
    fn from(value: HashAlgorithm) -> (code: u16)
        ensures
            code == value.code(),
    {
        u8::from(value) as u16
    }
}

impl FromSpecImpl<HashAlgorithm> for u16 {
    open spec fn obeys_from_spec() -> bool {
        true
    }

    open spec fn from_spec(value: HashAlgorithm) -> u16 {
        value.code() as u16
    }
}

impl From<HashAlgorithm> for i16 {
    /// The numeric code of the algorithm, as `i16`.
    fn from(value: HashAlgorithm) -> (code: i16)
        ensures
            code == value.code(),
    {
        u8::from(value) as i16
    }
}

impl FromSpecImpl<HashAlgorithm> for i16 {
    open spec fn obeys_from_spec() -> bool {
        true
    }

    open spec fn from_spec(value: HashAlgorithm) -> i16 {
        value.code() as i16
    }
}

impl From<HashAlgorithm> for u32 {
    /// The numeric code of the algorithm, as `u32`.
    fn from(value: HashAlgorithm) -> (code: u32)
        ensures
            code == value.code(),
    {
        u8::from(value) as u32
    }
}

impl FromSpecImpl<HashAlgorithm> for u32 {
    open spec fn obeys_from_spec() -> bool {
        true
    }

    open spec fn from_spec(value: HashAlgorithm) -> u32 {
        value.code() as u32
    }
}

impl From<HashAlgorithm> for i32 {
    /// The numeric code of the algorithm, as `i32`.
    fn from(value: HashAlgorithm) -> (code: i32)
        ensures
            code == value.code(),
    {
        u8::from(value) as i32
    }
}

impl FromSpecImpl<HashAlgorithm> for i32 {
    open spec fn obeys_from_spec() -> bool {
        true
    }

    open spec fn from_spec(value: HashAlgorithm) -> i32 {
        value.code() as i32
    }
}

impl From<HashAlgorithm> for u64 {
    /// The numeric code of the algorithm, as `u64`.
    fn from(value: HashAlgorithm) -> (code: u64)
        ensures
            code == value.code(),
    {
        u8::from(value) as u64
    }
}

impl FromSpecImpl<HashAlgorithm> for u64 {
    open spec fn obeys_from_spec() -> bool {
        true
    }

    open spec fn from_spec(value: HashAlgorithm) -> u64 {
        value.code() as u64
    }
}

impl From<HashAlgorithm> for i64 {
    /// The numeric code of the algorithm, as `i64`.
    fn from(value: HashAlgorithm) -> (code: i64)
        ensures
            code == value.code(),
    {
        u8::from(value) as i64
    }
}

impl FromSpecImpl<HashAlgorithm> for i64 {
    open spec fn obeys_from_spec() -> bool {
        true
    }

    open spec fn from_spec(value: HashAlgorithm) -> i64 {
        value.code() as i64
    }
}

impl From<HashAlgorithm> for usize {
    /// The numeric code of the algorithm, as `usize`.
    fn from(value: HashAlgorithm) -> (code: usize)
        ensures
            code == value.code(),
    {
        u8::from(value) as usize
    }
}

impl FromSpecImpl<HashAlgorithm> for usize {
    open spec fn obeys_from_spec() -> bool {
        true
    }

    open spec fn from_spec(value: HashAlgorithm) -> usize {
        value.code() as usize
    }
}

impl From<HashAlgorithm> for isize {
    /// The numeric code of the algorithm, as `isize`.
    fn from(value: HashAlgorithm) -> (code: isize)
        ensures
            code == value.code(),
    {
        u8::from(value) as isize
    }
}

impl FromSpecImpl<HashAlgorithm> for isize {
    open spec fn obeys_from_spec() -> bool {
        true
    }

    open spec fn from_spec(value: HashAlgorithm) -> isize {
        value.code() as isize
    }
}

// The code out of the wider integer types.
impl TryFrom<i8> for HashAlgorithm {
    type Error = Error;

    /// The algorithm whose code is `value`; an error that holds `value` as a
    /// `usize` if it is the code of no algorithm.
    fn try_from(value: i8) -> (r: Result<Self, Error>)
        ensures
            r == Self::from_int(value as i128),
    {
        HashAlgorithm::try_from_int(value as i128)
    }
}

impl TryFromSpecImpl<i8> for HashAlgorithm {
    open spec fn obeys_try_from_spec() -> bool {
        true
    }

    open spec fn try_from_spec(value: i8) -> Result<Self, Error> {
        Self::from_int(value as i128)
    }
}

impl TryFrom<u16> for HashAlgorithm {
    type Error = Error;

    /// The algorithm whose code is `value`; an error that holds `value` as a
    /// `usize` if it is the code of no algorithm.
    fn try_from(value: u16) -> (r: Result<Self, Error>)
        ensures
            r == Self::from_int(value as i128),
    {
        HashAlgorithm::try_from_int(value as i128)
    }
}

impl TryFromSpecImpl<u16> for HashAlgorithm {
    open spec fn obeys_try_from_spec() -> bool {
        true
    }

    open spec fn try_from_spec(value: u16) -> Result<Self, Error> {
        Self::from_int(value as i128)
    }
}

impl TryFrom<i16> for HashAlgorithm {
    type Error = Error;

    /// The algorithm whose code is `value`; an error that holds `value` as a
    /// `usize` if it is the code of no algorithm.
    fn try_from(value: i16) -> (r: Result<Self, Error>)
        ensures
            r == Self::from_int(value as i128),
    {
        HashAlgorithm::try_from_int(value as i128)
    }
}

impl TryFromSpecImpl<i16> for HashAlgorithm {
    open spec fn obeys_try_from_spec() -> bool {
        true
    }

    open spec fn try_from_spec(value: i16) -> Result<Self, Error> {
        Self::from_int(value as i128)
    }
}

impl TryFrom<u32> for HashAlgorithm {
    type Error = Error;

    /// The algorithm whose code is `value`; an error that holds `value` as a
    /// `usize` if it is the code of no algorithm.
    fn try_from(value: u32) -> (r: Result<Self, Error>)
        ensures
            r == Self::from_int(value as i128),
    {
        HashAlgorithm::try_from_int(value as i128)
    }
}

impl TryFromSpecImpl<u32> for HashAlgorithm {
    open spec fn obeys_try_from_spec() -> bool {
        true
    }

    open spec fn try_from_spec(value: u32) -> Result<Self, Error> {
        Self::from_int(value as i128)
    }
}

impl TryFrom<i32> for HashAlgorithm {
    type Error = Error;

    /// The algorithm whose code is `value`; an error that holds `value` as a
    /// `usize` if it is the code of no algorithm.
    fn try_from(value: i32) -> (r: Result<Self, Error>)
        ensures
            r == Self::from_int(value as i128),
    {
        HashAlgorithm::try_from_int(value as i128)
    }
}

impl TryFromSpecImpl<i32> for HashAlgorithm {
    open spec fn obeys_try_from_spec() -> bool {
        true
    }

    open spec fn try_from_spec(value: i32) -> Result<Self, Error> {
        Self::from_int(value as i128)
    }
}

impl TryFrom<u64> for HashAlgorithm {
    type Error = Error;

    /// The algorithm whose code is `value`; an error that holds `value` as a
    /// `usize` if it is the code of no algorithm.
    fn try_from(value: u64) -> (r: Result<Self, Error>)
        ensures
            r == Self::from_int(value as i128),
    {
        HashAlgorithm::try_from_int(value as i128)
    }
}

impl TryFromSpecImpl<u64> for HashAlgorithm {
    open spec fn obeys_try_from_spec() -> bool {
        true
    }

    open spec fn try_from_spec(value: u64) -> Result<Self, Error> {
        Self::from_int(value as i128)
    }
}

impl TryFrom<i64> for HashAlgorithm {
    type Error = Error;

    /// The algorithm whose code is `value`; an error that holds `value` as a
    /// `usize` if it is the code of no algorithm.
    fn try_from(value: i64) -> (r: Result<Self, Error>)
        ensures
            r == Self::from_int(value as i128),
    {
        HashAlgorithm::try_from_int(value as i128)
    }
}

impl TryFromSpecImpl<i64> for HashAlgorithm {
    open spec fn obeys_try_from_spec() -> bool {
        true
    }

    open spec fn try_from_spec(value: i64) -> Result<Self, Error> {
        Self::from_int(value as i128)
    }
}

impl TryFrom<usize> for HashAlgorithm {
    type Error = Error;

    /// The algorithm whose code is `value`; an error that holds `value` as a
    /// `usize` if it is the code of no algorithm.
    fn try_from(value: usize) -> (r: Result<Self, Error>)
        ensures
            r == Self::from_int(value as i128),
    {
        HashAlgorithm::try_from_int(value as i128)
    }
}

impl TryFromSpecImpl<usize> for HashAlgorithm {
    open spec fn obeys_try_from_spec() -> bool {
        true
    }

    open spec fn try_from_spec(value: usize) -> Result<Self, Error> {
        Self::from_int(value as i128)
    }
}

impl TryFrom<isize> for HashAlgorithm {
    type Error = Error;

    /// The algorithm whose code is `value`; an error that holds `value` as a
    /// `usize` if it is the code of no algorithm.
    fn try_from(value: isize) -> (r: Result<Self, Error>)
        ensures
            r == Self::from_int(value as i128),
    {
        HashAlgorithm::try_from_int(value as i128)
    }
}

impl TryFromSpecImpl<isize> for HashAlgorithm {
    open spec fn obeys_try_from_spec() -> bool {
        true
    }

    open spec fn try_from_spec(value: isize) -> Result<Self, Error> {
        Self::from_int(value as i128)
    }
}

} // verus!
