//! Anemoi: an algebraic hash and compression function family over large
//! prime fields, built from the flystel S-box, a lightweight MDS diffusion
//! layer and additive round constants, with a sponge mode for variable-length
//! inputs and a Jive mode for fixed-width compression.

pub mod arith;
pub mod felt;
pub mod bn_254;
pub mod bls12_377;
pub mod ed_on_bls12_377;
pub mod vesta;
