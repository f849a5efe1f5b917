//! Declarations of the outside field-element types.
//!
//! The base fields come from the arkworks crates as `Fp256<P>` / `Fp384<P>`.
//! To Verus these are opaque; each instance module names the canonical
//! residue of its own field's elements and states the contracts of the
//! arithmetic it calls over that name.

use vstd::prelude::*;

verus! {

/// Outside type: a 256-bit prime-field element of `ark_ff`.
#[verifier::external_type_specification]
#[verifier::external_body]
#[verifier::reject_recursive_types(P)]
pub struct ExFp256<P>(ark_ff::Fp256<P>);

/// Outside type: a 384-bit prime-field element of `ark_ff`.
#[verifier::external_type_specification]
#[verifier::external_body]
#[verifier::reject_recursive_types(P)]
pub struct ExFp384<P>(ark_ff::Fp384<P>);

/// Outside type: the parameter tag of the BN254 base field.
#[verifier::external_type_specification]
#[verifier::external_body]
pub struct ExFqParametersBn254(ark_bn254::FqParameters);

/// Outside type: the parameter tag of the BLS12-377 base field.
#[verifier::external_type_specification]
#[verifier::external_body]
pub struct ExFqParametersBls377(ark_bls12_377::FqParameters);

/// Outside type: the parameter tag of the twisted Edwards curve's base
/// field over BLS12-377.
#[verifier::external_type_specification]
#[verifier::external_body]
pub struct ExFqParametersEd(ark_ed_on_bls12_377::FqParameters);

/// Outside type: the parameter tag of the Vesta base field.
#[verifier::external_type_specification]
#[verifier::external_body]
pub struct ExFqParametersVesta(ark_vesta::FqParameters);

} // verus!
