//! Parameters of noise flooding.

use crate::fhe_core::{max_modulus_size, spec_max_modulus_size};
use vstd::prelude::*;

verus! {

/// Noise flooding distribution parameter for distributed decryption in
/// threshold FHE.
pub const MP_SD: usize = 1048576;

/// Noise flooding distribution parameter for fixed 20 bits noise multihop PRE.
pub const PRE_SD: usize = 1048576;

/// Number of additional moduli in NOISE_FLOODING_MULTIPARTY mode.
pub const NUM_MODULI_MULTIPARTY: usize = 2;

/// The size in bits of the additional moduli in NOISE_FLOODING_MULTIPARTY
/// mode, by the width of the machine's pointers: 60 on a 64-bit machine, the
/// largest size of a modulus on any other.
pub open spec fn spec_multipart_mod_size(pointer_width: u32) -> usize {
    if pointer_width == 64 {
        60
    } else {
        spec_max_modulus_size(pointer_width)
    }
}

/// Modulus size for additional moduli in NOISE_FLOODING_MULTIPARTY mode, on a
/// machine whose pointers have `pointer_width` bits.
pub fn multipart_mod_size(pointer_width: u32) -> (bits: usize)
    ensures
        bits == spec_multipart_mod_size(pointer_width),
{
    if pointer_width == 64 {
        60
    } else {
        max_modulus_size(pointer_width)
    }
}

} // verus!
