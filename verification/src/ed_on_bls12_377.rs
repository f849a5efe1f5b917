//! Anemoi instance over the base field of the twisted Edwards curve on
//! BLS12-377.

pub mod field;
pub mod sbox;
pub mod anemoi_2_1;
