//! The Poseidon2 permutation over the BN254 scalar field.

pub mod bn254;
pub mod linear;
pub mod model;
pub mod perm;
