//! Modular-exponentiation helpers shared by every field instance.
//!
//! All contracts in this crate speak of field elements through their
//! canonical residues, so the basic vocabulary is `pow_m(b, e, m)`:
//! `b` raised to the `e`-th power, reduced modulo `m`.

use vstd::prelude::*;
use vstd::arithmetic::power::{pow, lemma_pow_adds, lemma_pow0, lemma_pow1};
use vstd::arithmetic::div_mod::lemma_mul_mod_noop_general;

verus! {

/// `b^e mod m`, the reference meaning of every exponentiation in this crate.
pub open spec fn pow_m(b: int, e: nat, m: int) -> int {
    pow(b, e) % m
}

/// Multiplying two reduced powers of the same base and reducing again
/// yields the reduced power of the summed exponents.
pub proof fn lemma_pow_m_mul(b: int, e1: nat, e2: nat, m: int)
    requires
        m > 0,
    ensures
        (pow_m(b, e1, m) * pow_m(b, e2, m)) % m == pow_m(b, (e1 + e2) as nat, m),
{
    lemma_pow_adds(b, e1, e2);
    lemma_mul_mod_noop_general(pow(b, e1), pow(b, e2), m);
}

/// Multiplying a reduced power by the (unreduced) base advances the exponent.
pub proof fn lemma_pow_m_mul_base(b: int, e: nat, m: int)
    requires
        m > 0,
    ensures
        (pow_m(b, e, m) * b) % m == pow_m(b, (e + 1) as nat, m),
{
    lemma_pow1(b);
    lemma_pow_adds(b, e, 1);
    lemma_mul_mod_noop_general(pow(b, e), b, m);
}

/// The square of a value, reduced, is its reduced second power.
pub proof fn lemma_pow_m_square(b: int, m: int)
    requires
        m > 0,
    ensures
        (b * b) % m == pow_m(b, 2, m),
{
    lemma_pow0(b);
    lemma_pow1(b);
    lemma_pow_adds(b, 1, 1);
}

} // verus!
