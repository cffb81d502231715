//! Foundation layer of a fully homomorphic encryption library.
//!
//! Two things live here. The scheme parameters are closed enumerations, one
//! for each choice that configures a scheme: each variant has a numeric code
//! and a name, and conversions from a number or a text reject whatever is
//! neither. The numeric kernel multiplies two 64-bit words into 128 bits and
//! reduces a 128-bit integer modulo a 64-bit modulus by Barrett's method.
//!
//! Every function is verified against its contract. What relates several
//! functions is stated as a proof function beside them: the code and the name
//! of a variant convert back to the variant, and reducing twice is reducing
//! once.

pub mod error;
pub mod fhe_core;

pub use error::{Error, FheResult};
