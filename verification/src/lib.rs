//! Constant-time scalar multiplication on the Baby-JubJub twisted Edwards
//! curve and the Poseidon2 permutation over its base field, the scalar field
//! of BN254.
//!
//! Field arithmetic is delegated to `ark_ff`; everything built on top of it
//! (masked selects, the group law, the Montgomery ladder, the permutation's
//! layers and round schedule) is verified against mathematical models over
//! `nat`.

pub mod curves;
pub mod field;
pub mod masked;
pub mod modular;
pub mod poseidon2;
