//! Trusted arithmetic on the Vesta base field.
//!
//! The spec function `fq` names the canonical residue an element holds;
//! every wrapper below states what the arkworks call it makes returns,
//! over that name.

use vstd::prelude::*;
use vstd::arithmetic::div_mod::{
    lemma_add_mod_noop, lemma_mul_mod_noop_general, lemma_small_mod,
};

verus! {

pub type Felt = ark_vesta::Fq;

/// The Vesta base-field modulus.
pub open spec fn q() -> int {
    0x40000000000000000000000000000000224698fc0994a8dd8c46eb2100000001int
}

/// The canonical residue held by a Vesta base-field element.
pub uninterp spec fn fq(x: Felt) -> int;

/// Relies on `ark_ff`'s `Add` for `Fp256`: addition of canonical residues mod `q`.
#[verifier::external_body]
pub(crate) fn fq_add(a: &Felt, b: &Felt) -> (r: Felt)
    ensures
        fq(r) == (fq(*a) + fq(*b)) % q(),
{
    *a + *b
}

/// Relies on `ark_ff`'s `Mul` for `Fp256`: multiplication of canonical residues mod `q`.
#[verifier::external_body]
pub(crate) fn fq_mul(a: &Felt, b: &Felt) -> (r: Felt)
    ensures
        fq(r) == (fq(*a) * fq(*b)) % q(),
{
    *a * *b
}

/// Relies on `ark_ff::Field::square`: the square of the residue, mod `q`.
#[verifier::external_body]
pub(crate) fn fq_square(a: &Felt) -> (r: Felt)
    ensures
        fq(r) == (fq(*a) * fq(*a)) % q(),
{
    ark_ff::Field::square(a)
}

/// Relies on `ark_ff::One::one` for `Fp256`: the multiplicative identity.
#[verifier::external_body]
pub(crate) fn fq_one() -> (r: Felt)
    ensures
        fq(r) == 1,
{
    ark_ff::One::one()
}

/// Relies on `ark_ff`'s `From<u64>` for `Fp256`: embeds an integer below `2^64 < q`.
#[verifier::external_body]
pub(crate) fn fq_from_u64(n: u64) -> (r: Felt)
    ensures
        fq(r) == n as int % q(),
{
    Felt::from(n)
}

/// Builds the element whose residue is the little-endian 4-limb value.
pub(crate) fn fq_from_limbs(l0: u64, l1: u64, l2: u64, l3: u64) -> (r: Felt)
    ensures
        fq(r) == (l0 + l1 * 0x10000000000000000 + l2 * 0x100000000000000000000000000000000
            + l3 * 0x1000000000000000000000000000000000000000000000000) % q(),
{
    let b32 = fq_from_u64(0x100000000);
    let b64 = fq_mul(&b32, &b32);
    proof {
        lemma_small_mod(0x100000000nat, q() as nat);
        lemma_small_mod(0x10000000000000000nat, q() as nat);
    }
    let mut acc = fq_from_u64(l3);
    proof {
        lemma_small_mod(l3 as nat, q() as nat);
    }
    let ghost h3: int = l3 as int;
    let m2 = fq_mul(&acc, &b64);
    let a2 = fq_from_u64(l2);
    proof {
        lemma_small_mod(l2 as nat, q() as nat);
        lemma_mul_mod_noop_general(h3, 0x10000000000000000, q());
        lemma_add_mod_noop(h3 * 0x10000000000000000, l2 as int, q());
    }
    acc = fq_add(&m2, &a2);
    let ghost h2: int = h3 * 0x10000000000000000 + l2;
    let m1 = fq_mul(&acc, &b64);
    let a1 = fq_from_u64(l1);
    proof {
        lemma_small_mod(l1 as nat, q() as nat);
        lemma_mul_mod_noop_general(h2, 0x10000000000000000, q());
        lemma_add_mod_noop(h2 * 0x10000000000000000, l1 as int, q());
    }
    acc = fq_add(&m1, &a1);
    let ghost h1: int = h2 * 0x10000000000000000 + l1;
    let m0 = fq_mul(&acc, &b64);
    let a0 = fq_from_u64(l0);
    proof {
        lemma_small_mod(l0 as nat, q() as nat);
        lemma_mul_mod_noop_general(h1, 0x10000000000000000, q());
        lemma_add_mod_noop(h1 * 0x10000000000000000, l0 as int, q());
    }
    acc = fq_add(&m0, &a0);
    acc
}

} // verus!
