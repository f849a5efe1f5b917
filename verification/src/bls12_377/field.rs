//! Trusted arithmetic on the BLS12-377 base field.
//!
//! `Felt` is `ark_bls12_377::Fq`, the 377-bit prime field. The spec function
//! `fp` names the canonical residue an element holds; every wrapper below
//! states what the arkworks call it makes returns, over that name.

use vstd::prelude::*;
use vstd::arithmetic::div_mod::{
    lemma_add_mod_noop, lemma_mul_mod_noop_general, lemma_small_mod,
};

verus! {

pub type Felt = ark_bls12_377::Fq;

/// The BLS12-377 base-field modulus.
pub open spec fn p() -> int {
    0x1ae3a4617c510eac63b05c06ca1493b1a22d9f300f5138f1ef3622fba094800170b5d44300000008508c00000000001int
}

/// The canonical residue held by a BLS12-377 base-field element.
pub uninterp spec fn fp(x: Felt) -> int;

/// Relies on `ark_ff`'s `Add` for `Fp384`: addition of canonical residues mod `p`.
#[verifier::external_body]
pub(crate) fn fp_add(a: &Felt, b: &Felt) -> (r: Felt)
    ensures
        fp(r) == (fp(*a) + fp(*b)) % p(),
{
    *a + *b
}

/// Relies on `ark_ff`'s `Sub` for `Fp384`: subtraction of canonical residues mod `p`.
#[verifier::external_body]
pub(crate) fn fp_sub(a: &Felt, b: &Felt) -> (r: Felt)
    ensures
        fp(r) == (fp(*a) - fp(*b)) % p(),
{
    *a - *b
}

/// Relies on `ark_ff`'s `Mul` for `Fp384`: multiplication of canonical residues mod `p`.
#[verifier::external_body]
pub(crate) fn fp_mul(a: &Felt, b: &Felt) -> (r: Felt)
    ensures
        fp(r) == (fp(*a) * fp(*b)) % p(),
{
    *a * *b
}

/// Relies on `ark_ff::Field::square`: the square of the residue, mod `p`.
#[verifier::external_body]
pub(crate) fn fp_square(a: &Felt) -> (r: Felt)
    ensures
        fp(r) == (fp(*a) * fp(*a)) % p(),
{
    ark_ff::Field::square(a)
}

/// Relies on `ark_ff::One::one` for `Fp384`: the multiplicative identity.
#[verifier::external_body]
pub(crate) fn fp_one() -> (r: Felt)
    ensures
        fp(r) == 1,
{
    ark_ff::One::one()
}

/// Relies on `ark_ff`'s `From<u64>` for `Fp384`: embeds an integer below `2^64 < p`.
#[verifier::external_body]
pub(crate) fn fp_from_u64(n: u64) -> (r: Felt)
    ensures
        fp(r) == n as int % p(),
{
    Felt::from(n)
}

/// The canonical residues of a sequence of field elements.
pub open spec fn pvals(s: Seq<Felt>) -> Seq<int> {
    s.map_values(|x: Felt| fp(x))
}

/// Builds the element whose residue is the little-endian 6-limb value.
pub(crate) fn fp_from_limbs(l0: u64, l1: u64, l2: u64, l3: u64, l4: u64, l5: u64) -> (r: Felt)
    ensures
        fp(r) == (l0 + l1 * 0x10000000000000000
            + l2 * 0x100000000000000000000000000000000
            + l3 * 0x1000000000000000000000000000000000000000000000000
            + l4 * 0x10000000000000000000000000000000000000000000000000000000000000000
            + l5 * 0x100000000000000000000000000000000000000000000000000000000000000000000000000000000)
            % p(),
{
    let b32 = fp_from_u64(0x100000000);
    let b64 = fp_mul(&b32, &b32);
    proof {
        lemma_small_mod(0x100000000nat, p() as nat);
        lemma_small_mod(0x10000000000000000nat, p() as nat);
    }
    let mut acc = fp_from_u64(l5);
    proof {
        lemma_small_mod(l5 as nat, p() as nat);
    }
    let ghost h5: int = l5 as int;
    let m4 = fp_mul(&acc, &b64);
    let a4 = fp_from_u64(l4);
    proof {
        lemma_small_mod(l4 as nat, p() as nat);
        lemma_mul_mod_noop_general(h5, 0x10000000000000000, p());
        lemma_add_mod_noop(h5 * 0x10000000000000000, l4 as int, p());
    }
    acc = fp_add(&m4, &a4);
    let ghost h4: int = h5 * 0x10000000000000000 + l4;
    let m3 = fp_mul(&acc, &b64);
    let a3 = fp_from_u64(l3);
    proof {
        lemma_small_mod(l3 as nat, p() as nat);
        lemma_mul_mod_noop_general(h4, 0x10000000000000000, p());
        lemma_add_mod_noop(h4 * 0x10000000000000000, l3 as int, p());
    }
    acc = fp_add(&m3, &a3);
    let ghost h3: int = h4 * 0x10000000000000000 + l3;
    let m2 = fp_mul(&acc, &b64);
    let a2 = fp_from_u64(l2);
    proof {
        lemma_small_mod(l2 as nat, p() as nat);
        lemma_mul_mod_noop_general(h3, 0x10000000000000000, p());
        lemma_add_mod_noop(h3 * 0x10000000000000000, l2 as int, p());
    }
    acc = fp_add(&m2, &a2);
    let ghost h2: int = h3 * 0x10000000000000000 + l2;
    let m1 = fp_mul(&acc, &b64);
    let a1 = fp_from_u64(l1);
    proof {
        lemma_small_mod(l1 as nat, p() as nat);
        lemma_mul_mod_noop_general(h2, 0x10000000000000000, p());
        lemma_add_mod_noop(h2 * 0x10000000000000000, l1 as int, p());
    }
    acc = fp_add(&m1, &a1);
    let ghost h1: int = h2 * 0x10000000000000000 + l1;
    let m0 = fp_mul(&acc, &b64);
    let a0 = fp_from_u64(l0);
    proof {
        lemma_small_mod(l0 as nat, p() as nat);
        lemma_mul_mod_noop_general(h1, 0x10000000000000000, p());
        lemma_add_mod_noop(h1 * 0x10000000000000000, l0 as int, p());
    }
    acc = fp_add(&m0, &a0);
    acc
}

} // verus!
