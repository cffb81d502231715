//! The error type of the library.

use vstd::prelude::*;

verus! {

/// Error type for FHE operations.
///
/// Each `Invalid..` variant carries the number that was offered as the code of
/// a scheme parameter and names none of its variants; `ParseError` carries a
/// message that quotes the text that names none.
#[derive(Debug)]
pub enum Error {
    /// Invalid hash algorithm
    InvalidHashAlgorithm(usize),
    /// Invalid polynomial format
    InvalidPolynomialFormat(usize),
    /// Invalid string format
    ParseError(String),
    /// Invalid PKE scheme feature
    InvalidPkeSchemeFeature(usize),
    /// Invalid scaling technique
    InvalidScalingTechnique(usize),
    /// Invalid proxy re-encryption mode
    InvalidProxyReEncryptionMode(usize),
    /// Invalid multiparty mode
    InvalidMultipartyMode(usize),
    /// Invalid execution mode
    InvalidExecutionMode(usize),
    /// Invalid decryption noise mode
    InvalidDecryptionNoiseMode(usize),
    /// Invalid key switch technique
    InvalidKeySwitchTechnique(usize),
    /// Invalid encryption technique
    InvalidEncryptionTechnique(usize),
    /// Invalid multiplication technique
    InvalidMultiplicationTechnique(usize),
    /// Invalid plaintext encoding
    InvalidPlaintextEncoding(usize),
    /// Invalid large scaling factor constant
    InvalidLargeScalingFactorConstant(usize),
    /// Invalid compression level
    InvalidCompressionLevel(usize),
}

/// Result type for FHE operations.
pub type FheResult<T> = Result<T, Error>;

} // verus!
