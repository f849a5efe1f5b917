//! The round-constant schedule of the eight-element Anemoi instance over
//! the Vesta base field: four columns, 10 rounds, generator 5 and S-box
//! exponent 5.

use vstd::prelude::*;
use vstd::arithmetic::power::lemma_pow0;
use vstd::arithmetic::div_mod::{
    lemma_add_mod_noop, lemma_mul_mod_noop_general, lemma_small_mod, lemma_mod_twice,
};
use crate::arith::{pow_m, lemma_pow_m_mul, lemma_pow_m_mul_base, lemma_pow_m_square};
use crate::vesta::field::{
    Felt, fq, q, fq_add, fq_mul, fq_square, fq_one, fq_from_u64, fq_from_limbs,
};

verus! {

/// The state holds eight field elements.
pub const STATE_WIDTH: usize = 8;
/// Seven elements of the state absorb input.
pub const RATE_WIDTH: usize = 7;
/// The state is two rows of four columns.
pub const NUM_COLUMNS: usize = 4;
/// The number of rounds of the permutation.
pub const NUM_HASH_ROUNDS: usize = 10;
/// The forward S-box exponent.
pub const ALPHA: u32 = 5;

/// The generator multiplier of this instance.
pub open spec fn g() -> int {
    5
}

/// The additive constant of the S-box second half: the inverse of the
/// generator, `5^-1 mod q`.
pub open spec fn delta_val() -> int {
    0x19999999999999999999999999999999a74f7064d0a1dd256b4f914066666667int
}

/// The first hundred digits of pi, reduced mod `q`: the seed of the `C`
/// round constants.
pub open spec fn pi0() -> int {
    0x32cab663a714048befaf50e2d95e922a2ead7da4a729e534c06ae40b6e6a4126int
}

/// The second hundred digits of pi, reduced mod `q`: the seed of the `D`
/// round constants.
pub open spec fn pi1() -> int {
    0x3100b6a8126d3c241b10df2c5dc9f1c874512e96630eb8a07513949ef4194cc0int
}

/// The shared power-of-alpha term of a round-constant pair.
pub open spec fn rc_pow(r: nat, i: nat) -> int {
    pow_m((pow_m(pi0(), r, q()) + pow_m(pi1(), i, q())) % q(), 5, q())
}

/// The round constant added to column `i` of the first row in round `r`.
pub open spec fn rc_c(r: nat, i: nat) -> int {
    (g() * (pow_m(pi0(), r, q()) * pow_m(pi0(), r, q())) + rc_pow(r, i)) % q()
}

/// The round constant added to column `i` of the second row in round `r`.
pub open spec fn rc_d(r: nat, i: nat) -> int {
    (g() * (pow_m(pi1(), i, q()) * pow_m(pi1(), i, q())) + rc_pow(r, i) + delta_val()) % q()
}

/// A flat table of round constants: entry `r * 4 + i` holds the constant
/// of round `r`, column `i`.
pub open spec fn c_table_ok(cs: Seq<Felt>) -> bool {
    cs.len() == 40 && forall|k: int| 0 <= k < 40 ==>
        fq(#[trigger] cs[k]) == rc_c((k / 4) as nat, (k % 4) as nat)
}

/// The same layout for the second-row constants.
pub open spec fn d_table_ok(ds: Seq<Felt>) -> bool {
    ds.len() == 40 && forall|k: int| 0 <= k < 40 ==>
        fq(#[trigger] ds[k]) == rc_d((k / 4) as nat, (k % 4) as nat)
}

/// The element holding `delta_val`.
fn delta() -> (r: Felt)
    ensures
        fq(r) == delta_val(),
{
    let r = fq_from_limbs(
        0x6b4f914066666667,
        0xa74f7064d0a1dd25,
        0x9999999999999999,
        0x1999999999999999,
    );
    r
}

/// Builds the two flat tables of round constants, forty entries each:
/// one per round and column, in round-major order.
pub fn round_constants() -> (t: (Vec<Felt>, Vec<Felt>))
    ensures
        c_table_ok(t.0@),
        d_table_ok(t.1@),
{
    let ge = fq_from_u64(5);
    let de = delta();
    let p0 = fq_from_limbs(
        0xc06ae40b6e6a4126,
        0x2ead7da4a729e534,
        0xefaf50e2d95e922a,
        0x32cab663a714048b,
    );
    let p1 = fq_from_limbs(
        0x7513949ef4194cc0,
        0x74512e96630eb8a0,
        0x1b10df2c5dc9f1c8,
        0x3100b6a8126d3c24,
    );
    proof {
        lemma_small_mod(5nat, q() as nat);
        lemma_small_mod(pi0() as nat, q() as nat);
        lemma_small_mod(pi1() as nat, q() as nat);
        assert(fq(p0) == pi0());
        assert(fq(p1) == pi1());
    }
    let mut cs: Vec<Felt> = Vec::new();
    let mut ds: Vec<Felt> = Vec::new();
    let mut p0r = fq_one();
    proof {
        lemma_pow0(pi0());
        lemma_small_mod(1nat, q() as nat);
        assert(fq(p0r) == pow_m(pi0(), 0, q()));
    }
    for r in 0..10usize
        invariant
            fq(ge) == g(),
            fq(de) == delta_val(),
            fq(p0) == pi0(),
            fq(p1) == pi1(),
            cs.len() == 4 * r,
            ds.len() == 4 * r,
            fq(p0r) == pow_m(pi0(), r as nat, q()),
            forall|k: int| 0 <= k < 4 * r ==>
                fq(#[trigger] cs@[k]) == rc_c((k / 4) as nat, (k % 4) as nat),
            forall|k: int| 0 <= k < 4 * r ==>
                fq(#[trigger] ds@[k]) == rc_d((k / 4) as nat, (k % 4) as nat),
    {
        let mut p1i = fq_one();
        proof {
            lemma_pow0(pi1());
            lemma_small_mod(1nat, q() as nat);
            assert(fq(p1i) == pow_m(pi1(), 0, q()));
        }
        for i in 0..4usize
            invariant
                fq(ge) == g(),
                fq(de) == delta_val(),
                fq(p0) == pi0(),
                fq(p1) == pi1(),
                r < 10,
                cs.len() == 4 * r + i,
                ds.len() == 4 * r + i,
                fq(p0r) == pow_m(pi0(), r as nat, q()),
                fq(p1i) == pow_m(pi1(), i as nat, q()),
                forall|k: int| 0 <= k < 4 * r + i ==>
                    fq(#[trigger] cs@[k]) == rc_c((k / 4) as nat, (k % 4) as nat),
                forall|k: int| 0 <= k < 4 * r + i ==>
                    fq(#[trigger] ds@[k]) == rc_d((k / 4) as nat, (k % 4) as nat),
        {
            let ghost pr: int = pow_m(pi0(), r as nat, q());
            let ghost pi_: int = pow_m(pi1(), i as nat, q());
            let s = fq_add(&p0r, &p1i);
            let s2 = fq_square(&s);
            let s4 = fq_square(&s2);
            let s5 = fq_mul(&s4, &s);
            proof {
                lemma_pow_m_square(fq(s), q());
                lemma_pow_m_mul(fq(s), 2nat, 2nat, q());
                lemma_pow_m_mul_base(fq(s), 4nat, q());
                assert(fq(s5) == rc_pow(r as nat, i as nat));
            }
            let p0r2 = fq_square(&p0r);
            let gc = fq_mul(&ge, &p0r2);
            let c = fq_add(&gc, &s5);
            proof {
                lemma_mul_mod_noop_general(g(), pr * pr, q());
                lemma_add_mod_noop(g() * (pr * pr), rc_pow(r as nat, i as nat), q());
                lemma_mod_twice(rc_pow(r as nat, i as nat), q());
                assert(fq(c) == rc_c(r as nat, i as nat));
            }
            let p1i2 = fq_square(&p1i);
            let gd = fq_mul(&ge, &p1i2);
            let d0 = fq_add(&gd, &s5);
            let d = fq_add(&d0, &de);
            proof {
                lemma_mul_mod_noop_general(g(), pi_ * pi_, q());
                lemma_add_mod_noop(g() * (pi_ * pi_), rc_pow(r as nat, i as nat), q());
                lemma_mod_twice(rc_pow(r as nat, i as nat), q());
                lemma_add_mod_noop(
                    g() * (pi_ * pi_) + rc_pow(r as nat, i as nat),
                    delta_val(),
                    q(),
                );
                lemma_small_mod(delta_val() as nat, q() as nat);
                assert(fq(d) == rc_d(r as nat, i as nat));
            }
            proof {
                assert((4 * (r as int) + (i as int)) / 4 == r as int);
                assert((4 * (r as int) + (i as int)) % 4 == i as int);
            }
            cs.push(c);
            ds.push(d);
            p1i = fq_mul(&p1i, &p1);
            proof {
                lemma_pow_m_mul_base(pi1(), i as nat, q());
            }
        }
        p0r = fq_mul(&p0r, &p0);
        proof {
            lemma_pow_m_mul_base(pi0(), r as nat, q());
        }
    }
    (cs, ds)
}

} // verus!
