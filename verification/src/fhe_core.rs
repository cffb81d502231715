//! Scheme parameters and the numeric kernel.
//!
//! Each scheme parameter has a module of its own, with the same shape: the
//! spec functions `code` and `name` give a variant its number and its text,
//! `from_code` and `named` say what a number and a text convert to, and the
//! conversions are verified against them: `FromStr` and `to_string` for the
//! text, `TryFrom` and `From` for the number in each integer type from `u8`
//! and `i8` to `usize` and `isize`, and `try_from_int`, through which the
//! wider ones go. The kernel is in `utils`.

pub mod compression_level;
pub mod decryption_noise_mode;
pub mod encryption_technique;
pub mod execution_mode;
pub mod hash_algorithm;
pub mod key_switch_technique;
pub mod large_scaling_factor_constants;
pub mod multiparty_mode;
pub mod multiplication_technique;
pub mod noise_flooding;
pub mod pke_scheme_feature;
pub mod plaintext_encodings;
pub mod polynomial_format;
pub mod proxy_reencryption_mode;
pub mod scaling_technique;
mod text;
pub mod utils;

pub use compression_level::CompressionLevel;
pub use decryption_noise_mode::DecryptionNoiseMode;
pub use encryption_technique::EncryptionTechnique;
pub use execution_mode::ExecutionMode;
pub use hash_algorithm::HashAlgorithm;
pub use key_switch_technique::KeySwitchTechnique;
pub use large_scaling_factor_constants::LargeScalingFactorConstants;
pub use multiparty_mode::MultipartyMode;
pub use multiplication_technique::MultiplicationTechnique;
pub use pke_scheme_feature::PkeSchemeFeature;
pub use plaintext_encodings::PlaintextEncodings;
pub use polynomial_format::PolynomialFormat;
pub use proxy_reencryption_mode::ProxyReEncryptionMode;
pub use scaling_technique::ScalingTechnique;
pub use utils::{barrett_constant, barrett_reduction, mul_128, PlaintextModulus};

use utils::is_modulus;
use vstd::arithmetic::power2::{lemma2_to64, lemma2_to64_rest, pow2};
use vstd::prelude::*;

verus! {

/// The largest bit length of a modulus, by the width of the machine's
/// pointers: 121 bits at 128, 60 bits at 64, 28 bits at any other width.
pub open spec fn spec_max_modulus_size(pointer_width: u32) -> usize {
    if pointer_width == 128 {
        121
    } else if pointer_width == 64 {
        60
    } else {
        28
    }
}

/// The largest bit length of a modulus on a machine whose pointers have
/// `pointer_width` bits.
pub fn max_modulus_size(pointer_width: u32) -> (bits: usize)
    ensures
        bits == spec_max_modulus_size(pointer_width),
{
    if pointer_width == 128 {
        121
    } else if pointer_width == 64 {
        60
    } else {
        28
    }
}

/// On a machine of at most 64 bits, the reduction accepts every modulus from
/// 2 on that is within the largest bit length.
pub proof fn lemma_moduli_within_size_are_accepted(modulus: u64, pointer_width: u32)
    requires
        pointer_width != 128,
        2 <= modulus < pow2(spec_max_modulus_size(pointer_width) as nat),
    ensures
        is_modulus(modulus),
{
    lemma2_to64();
    lemma2_to64_rest();
}

} // verus!
