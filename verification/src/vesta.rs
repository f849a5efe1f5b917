//! The Anemoi round-constant schedule over the Vesta base field.

pub mod field;
pub mod anemoi_8_7;
