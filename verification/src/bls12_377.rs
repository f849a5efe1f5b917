//! Anemoi instance over the BLS12-377 base field.

pub mod field;
pub mod sbox;
pub mod anemoi_2_1;
