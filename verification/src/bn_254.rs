//! Anemoi instances over the BN254 base field.

pub mod field;
pub mod sbox;
pub mod anemoi_12_11;
