//! The Anemoi permutation with a two-element state over the BLS12-377
//! base field: one column, one element of rate and a 19-round schedule.
//!
//! Every function's contract states the new residues of the state as a
//! function of the old ones; the diffusion layer is also proved equal to
//! its full matrix form.

use vstd::prelude::*;
use vstd::arithmetic::power::lemma_pow0;
use vstd::arithmetic::div_mod::{
    lemma_add_mod_noop, lemma_add_mod_noop_right, lemma_sub_mod_noop_right,
    lemma_mul_mod_noop_general, lemma_small_mod, lemma_mod_twice,
};
use crate::arith::{pow_m, lemma_pow_m_mul, lemma_pow_m_mul_base, lemma_pow_m_square};
use crate::bls12_377::field::{
    Felt, fp, p, pvals, fp_add, fp_sub, fp_mul, fp_square, fp_one, fp_from_u64, fp_from_limbs,
};
use crate::bls12_377::sbox::{exp_inv_alpha, delta, delta_val, inv_alpha};

verus! {

/// The state holds two field elements.
pub const STATE_WIDTH: usize = 2;
/// One element of the state absorbs input.
pub const RATE_WIDTH: usize = 1;
/// The state is two rows of one column.
pub const NUM_COLUMNS: usize = 1;
/// A digest is one field element.
pub const DIGEST_SIZE: usize = 1;
/// The number of rounds of the permutation.
pub const NUM_HASH_ROUNDS: usize = 19;

/// The generator multiplier of this instance.
pub open spec fn g() -> int {
    15
}

/// The first stage of the flystel: `x` less the quadratic of `y`.
pub open spec fn flystel_u(x: int, y: int) -> int {
    (x - g() * (y * y)) % p()
}

/// The new second-row entry: `y` less the inverse-alpha power of the
/// first stage.
pub open spec fn flystel_y(x: int, y: int) -> int {
    (y - pow_m(flystel_u(x, y), inv_alpha(), p())) % p()
}

/// The new first-row entry: the first stage plus the quadratic of the
/// new `y` and the constant `delta`.
pub open spec fn flystel_x(x: int, y: int) -> int {
    (flystel_u(x, y) + g() * (flystel_y(x, y) * flystel_y(x, y)) + delta_val()) % p()
}

/// The S-box layer: the flystel on the single column.
pub open spec fn sbox_spec(s: Seq<int>) -> Seq<int> {
    seq![flystel_x(s[0], s[1]), flystel_y(s[0], s[1])]
}

/// The diffusion layer: the generator is folded into each element from
/// the other, the second update reading the first one's result.
pub open spec fn mds_spec(s: Seq<int>) -> Seq<int> {
    let a = (s[0] + g() * s[1]) % p();
    let b = (s[1] + g() * a) % p();
    seq![a, b]
}

/// The first hundred digits of pi, reduced mod `p`: the seed of the `C`
/// round constants.
pub open spec fn pi0() -> int {
    0x296e417278c91bbebb472cab663a71405eef415a7751d7b251874642e34fa5406ba944ce62eb559eff7int
}

/// The shared power-of-alpha term of a round-constant pair.
pub open spec fn rc_pow(r: nat) -> int {
    pow_m((pow_m(pi0(), r, p()) + 1) % p(), 5, p())
}

/// The round constant added to the first row in round `r`.
pub open spec fn rc_c(r: nat) -> int {
    (g() * (pow_m(pi0(), r, p()) * pow_m(pi0(), r, p())) + rc_pow(r)) % p()
}

/// The round constant added to the second row in round `r`.
pub open spec fn rc_d(r: nat) -> int {
    (g() + rc_pow(r) + delta_val()) % p()
}

/// The constant-addition stage of round `r`.
pub open spec fn add_constants_spec(s: Seq<int>, r: nat) -> Seq<int> {
    seq![(s[0] + rc_c(r)) % p(), (s[1] + rc_d(r)) % p()]
}

/// One full round: constants, diffusion, S-box.
pub open spec fn round_spec(s: Seq<int>, r: nat) -> Seq<int> {
    sbox_spec(mds_spec(add_constants_spec(s, r)))
}

/// The first `n` rounds applied in order.
pub open spec fn rounds_spec(s: Seq<int>, n: nat) -> Seq<int>
    decreases n,
{
    if n == 0 {
        s
    } else {
        round_spec(rounds_spec(s, (n - 1) as nat), (n - 1) as nat)
    }
}

/// The whole permutation: nineteen rounds and a final diffusion layer.
#[verifier::opaque]
pub open spec fn permutation_spec(s: Seq<int>) -> Seq<int> {
    mds_spec(rounds_spec(s, 19))
}

/// Builds the element holding the generator multiplier.
fn g_elem() -> (r: Felt)
    ensures
        fp(r) == g(),
{
    let r = fp_from_u64(15);
    proof {
        lemma_small_mod(15nat, p() as nat);
    }
    r
}

/// Applies the flystel S-box to the state.
pub fn apply_sbox(state: &mut Vec<Felt>)
    requires
        old(state).len() == 2,
    ensures
        final(state).len() == 2,
        pvals(final(state)@) == sbox_spec(pvals(old(state)@)),
{
    let ghost s0: Seq<int> = pvals(state@);
    let ge = g_elem();
    let de = delta();
    let x = state[0];
    let y = state[1];
    let ghost xv: int = fp(x);
    let ghost yv: int = fp(y);
    let y2 = fp_square(&y);
    let gy2 = fp_mul(&ge, &y2);
    let u = fp_sub(&x, &gy2);
    proof {
        lemma_mul_mod_noop_general(g(), yv * yv, p());
        lemma_sub_mod_noop_right(xv, g() * (yv * yv), p());
        assert(fp(u) == flystel_u(xv, yv));
    }
    let xi = exp_inv_alpha(&u);
    let ny = fp_sub(&y, &xi);
    proof {
        assert(fp(ny) == flystel_y(xv, yv));
    }
    let ny2 = fp_square(&ny);
    let gny2 = fp_mul(&ge, &ny2);
    let nx0 = fp_add(&u, &gny2);
    let nx = fp_add(&nx0, &de);
    proof {
        let nyv = flystel_y(xv, yv);
        lemma_mul_mod_noop_general(g(), nyv * nyv, p());
        lemma_add_mod_noop_right(flystel_u(xv, yv), g() * (nyv * nyv), p());
        lemma_add_mod_noop(flystel_u(xv, yv) + g() * (nyv * nyv), delta_val(), p());
        lemma_small_mod(delta_val() as nat, p() as nat);
        assert(fp(nx) == flystel_x(xv, yv));
    }
    state[0] = nx;
    state[1] = ny;
    proof {
        assert(pvals(state@) =~= sbox_spec(s0));
    }
}

/// Applies the diffusion layer to the state.
pub fn apply_mds(state: &mut Vec<Felt>)
    requires
        old(state).len() == 2,
    ensures
        final(state).len() == 2,
        pvals(final(state)@) == mds_spec(pvals(old(state)@)),
{
    let ghost s0: Seq<int> = pvals(state@);
    let ge = g_elem();
    let s1 = state[1];
    let gs1 = fp_mul(&ge, &s1);
    let a0 = state[0];
    let na = fp_add(&a0, &gs1);
    proof {
        lemma_mul_mod_noop_general(g(), s0[1], p());
        lemma_add_mod_noop_right(s0[0], g() * s0[1], p());
    }
    state[0] = na;
    let ga = fp_mul(&ge, &na);
    let b0 = state[1];
    let nb = fp_add(&b0, &ga);
    proof {
        lemma_mul_mod_noop_general(g(), (s0[0] + g() * s0[1]) % p(), p());
        lemma_add_mod_noop_right(s0[1], g() * ((s0[0] + g() * s0[1]) % p()), p());
    }
    state[1] = nb;
    proof {
        assert(pvals(state@) =~= mds_spec(s0));
    }
}

/// The diffusion layer equals its full matrix form: the matrix rows are
/// `(1, g)` and `(g, g*g + 1)`, applied to the old state mod `p`.
pub proof fn lemma_mds_matrix_form(s: Seq<int>)
    requires
        s.len() == 2,
    ensures
        mds_spec(s)[0] == (1 * s[0] + g() * s[1]) % p(),
        mds_spec(s)[1] == (g() * s[0] + (g() * g() + 1) * s[1]) % p(),
{
    let a: int = (s[0] + g() * s[1]) % p();
    lemma_add_mod_noop_right(s[1], g() * a, p());
    lemma_mul_mod_noop_general(g(), s[0] + g() * s[1], p());
    lemma_add_mod_noop_right(s[1], g() * (s[0] + g() * s[1]), p());
    assert(g() * (s[0] + g() * s[1]) == g() * s[0] + (g() * g()) * s[1]) by (nonlinear_arith);
    assert(mds_spec(s)[1] == (s[1] + g() * a) % p());
    assert((s[1] + g() * a) % p() == (s[1] + (g() * a) % p()) % p());
    assert((g() * a) % p() == (g() * (s[0] + g() * s[1])) % p());
    assert((s[1] + g() * (s[0] + g() * s[1])) % p() == (g() * s[0] + (g() * g() + 1) * s[1]) % p());
    assert((s[1] + g() * a) % p() == (g() * s[0] + (g() * g() + 1) * s[1]) % p());
}

/// Builds the two flat tables of round constants, one entry per round.
pub fn round_constants() -> (t: (Vec<Felt>, Vec<Felt>))
    ensures
        t.0.len() == 19,
        t.1.len() == 19,
        forall|r: int| 0 <= r < 19 ==> fp(#[trigger] t.0@[r]) == rc_c(r as nat),
        forall|r: int| 0 <= r < 19 ==> fp(#[trigger] t.1@[r]) == rc_d(r as nat),
{
    let ge = g_elem();
    let de = delta();
    let one = fp_one();
    let p0 = fp_from_limbs(
        0x944ce62eb559eff7,
        0x74642e34fa5406ba,
        0xf415a7751d7b2518,
        0x72cab663a71405ee,
        0xe417278c91bbebb4,
        0x0000000000000296,
    );
    proof {
        lemma_small_mod(pi0() as nat, p() as nat);
        assert(fp(p0) == pi0());
    }
    let mut cs: Vec<Felt> = Vec::new();
    let mut ds: Vec<Felt> = Vec::new();
    let mut p0r = fp_one();
    proof {
        lemma_pow0(pi0());
        lemma_small_mod(1nat, p() as nat);
        assert(fp(p0r) == pow_m(pi0(), 0, p()));
    }
    for r in 0..19usize
        invariant
            fp(ge) == g(),
            fp(de) == delta_val(),
            fp(p0) == pi0(),
            fp(one) == 1,
            cs.len() == r,
            ds.len() == r,
            fp(p0r) == pow_m(pi0(), r as nat, p()),
            forall|k: int| 0 <= k < r ==> fp(#[trigger] cs@[k]) == rc_c(k as nat),
            forall|k: int| 0 <= k < r ==> fp(#[trigger] ds@[k]) == rc_d(k as nat),
    {
        let ghost pr: int = pow_m(pi0(), r as nat, p());
        let s = fp_add(&p0r, &one);
        let s2 = fp_square(&s);
        let s4 = fp_square(&s2);
        let s5 = fp_mul(&s4, &s);
        proof {
            lemma_pow_m_square(fp(s), p());
            lemma_pow_m_mul(fp(s), 2nat, 2nat, p());
            lemma_pow_m_mul_base(fp(s), 4nat, p());
            lemma_small_mod(1nat, p() as nat);
            assert(fp(s5) == rc_pow(r as nat));
        }
        let p0r2 = fp_square(&p0r);
        let gc = fp_mul(&ge, &p0r2);
        let c = fp_add(&gc, &s5);
        proof {
            lemma_mul_mod_noop_general(g(), pr * pr, p());
            lemma_add_mod_noop(g() * (pr * pr), rc_pow(r as nat), p());
            lemma_mod_twice(rc_pow(r as nat), p());
            lemma_small_mod((g() * (pr * pr) % p()) as nat, p() as nat);
            assert(fp(c) == rc_c(r as nat));
        }
        let d0 = fp_add(&ge, &s5);
        let d = fp_add(&d0, &de);
        proof {
            lemma_small_mod(15nat, p() as nat);
            lemma_add_mod_noop(g(), rc_pow(r as nat), p());
            lemma_mod_twice(rc_pow(r as nat), p());
            lemma_add_mod_noop(g() + rc_pow(r as nat), delta_val(), p());
            lemma_small_mod(delta_val() as nat, p() as nat);
            assert(fp(d) == rc_d(r as nat));
        }
        cs.push(c);
        ds.push(d);
        p0r = fp_mul(&p0r, &p0);
        proof {
            lemma_pow_m_mul_base(pi0(), r as nat, p());
        }
    }
    (cs, ds)
}

/// Applies one round: the constants of round `step mod 19`, the
/// diffusion layer and the S-box layer.
pub fn apply_round(state: &mut Vec<Felt>, step: usize)
    requires
        old(state).len() == 2,
    ensures
        final(state).len() == 2,
        pvals(final(state)@) == round_spec(pvals(old(state)@), (step % 19) as nat),
{
    let ghost s0: Seq<int> = pvals(state@);
    let t = round_constants();
    let cs = t.0;
    let ds = t.1;
    let r = step % 19;
    let ci = cs[r];
    let di = ds[r];
    let a = state[0];
    let b = state[1];
    let na = fp_add(&a, &ci);
    let nb = fp_add(&b, &di);
    state[0] = na;
    state[1] = nb;
    proof {
        assert(pvals(state@) =~= add_constants_spec(s0, r as nat));
    }
    apply_mds(state);
    apply_sbox(state);
}

/// Applies the whole Anemoi permutation: nineteen rounds and a final
/// diffusion layer.
pub fn apply_permutation(state: &mut Vec<Felt>)
    requires
        old(state).len() == 2,
    ensures
        final(state).len() == 2,
        pvals(final(state)@) == permutation_spec(pvals(old(state)@)),
{
    let ghost init: Seq<int> = pvals(state@);
    for r in 0..19
        invariant
            state.len() == 2,
            pvals(state@) == rounds_spec(init, r as nat),
    {
        apply_round(state, r);
        proof {
            assert(r % 19 == r);
            assert(rounds_spec(init, (r + 1) as nat)
                == round_spec(rounds_spec(init, r as nat), r as nat));
        }
    }
    apply_mds(state);
    proof {
        reveal(permutation_spec);
    }
}

} // verus!
