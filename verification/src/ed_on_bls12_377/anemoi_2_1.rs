//! The Anemoi permutation with a two-element state over the base field
//! of the twisted Edwards curve on BLS12-377: one column, one element of
//! rate and an 18-round schedule.
//!
//! Every function's contract states the new residues of the state as a
//! function of the old ones; the diffusion layer is also proved equal to
//! its full matrix form.

use vstd::prelude::*;
use vstd::arithmetic::power::lemma_pow0;
use vstd::arithmetic::div_mod::{
    lemma_add_mod_noop, lemma_add_mod_noop_right, lemma_sub_mod_noop_right,
    lemma_mul_mod_noop_general, lemma_small_mod, lemma_mod_twice,
};
use crate::arith::{pow_m, lemma_pow_m_mul, lemma_pow_m_mul_base, lemma_pow_m_square};
use crate::ed_on_bls12_377::field::{
    Felt, fq, q, vals, fq_add, fq_sub, fq_mul, fq_square, fq_one, fq_from_u64, fq_from_limbs,
};
use crate::ed_on_bls12_377::sbox::{exp_inv_alpha, delta, delta_val, inv_alpha};

verus! {

/// The state holds two field elements.
pub const STATE_WIDTH: usize = 2;
/// One element of the state absorbs input.
pub const RATE_WIDTH: usize = 1;
/// The state is two rows of one column.
pub const NUM_COLUMNS: usize = 1;
/// A digest is one field element.
pub const DIGEST_SIZE: usize = 1;
/// The number of rounds of the permutation.
pub const NUM_HASH_ROUNDS: usize = 18;

/// The generator multiplier of this instance.
pub open spec fn g() -> int {
    22
}

/// The first stage of the flystel: `x` less the quadratic of `y`.
pub open spec fn flystel_u(x: int, y: int) -> int {
    (x - g() * (y * y)) % q()
}

/// The new second-row entry: `y` less the inverse-alpha power of the
/// first stage.
pub open spec fn flystel_y(x: int, y: int) -> int {
    (y - pow_m(flystel_u(x, y), inv_alpha(), q())) % q()
}

/// The new first-row entry: the first stage plus the quadratic of the
/// new `y` and the constant `delta`.
pub open spec fn flystel_x(x: int, y: int) -> int {
    (flystel_u(x, y) + g() * (flystel_y(x, y) * flystel_y(x, y)) + delta_val()) % q()
}

/// The S-box layer: the flystel on the single column.
pub open spec fn sbox_spec(s: Seq<int>) -> Seq<int> {
    seq![flystel_x(s[0], s[1]), flystel_y(s[0], s[1])]
}

/// The diffusion layer: the generator is folded into each element from
/// the other, the second update reading the first one's result.
pub open spec fn mds_spec(s: Seq<int>) -> Seq<int> {
    let a = (s[0] + g() * s[1]) % q();
    let b = (s[1] + g() * a) % q();
    seq![a, b]
}

/// The first hundred digits of pi, reduced mod `q`: the seed of the `C`
/// round constants.
pub open spec fn pi0() -> int {
    0xbd98003f0d7445e70f7f606dcdf6ace102e3a805a30a36a105c3ae5585c7264int
}

/// The shared power-of-alpha term of a round-constant pair.
pub open spec fn rc_pow(r: nat) -> int {
    pow_m((pow_m(pi0(), r, q()) + 1) % q(), 11, q())
}

/// The round constant added to the first row in round `r`.
pub open spec fn rc_c(r: nat) -> int {
    (g() * (pow_m(pi0(), r, q()) * pow_m(pi0(), r, q())) + rc_pow(r)) % q()
}

/// The round constant added to the second row in round `r`.
pub open spec fn rc_d(r: nat) -> int {
    (g() + rc_pow(r) + delta_val()) % q()
}

/// The constant-addition stage of round `r`.
pub open spec fn add_constants_spec(s: Seq<int>, r: nat) -> Seq<int> {
    seq![(s[0] + rc_c(r)) % q(), (s[1] + rc_d(r)) % q()]
}

/// One full round: constants, diffusion, S-box.
pub open spec fn round_spec(s: Seq<int>, r: nat) -> Seq<int> {
    sbox_spec(mds_spec(add_constants_spec(s, r)))
}

/// The first `n` rounds applied in order.
pub open spec fn rounds_spec(s: Seq<int>, n: nat) -> Seq<int>
    decreases n,
{
    if n == 0 {
        s
    } else {
        round_spec(rounds_spec(s, (n - 1) as nat), (n - 1) as nat)
    }
}

/// The whole permutation: eighteen rounds and a final diffusion layer.
#[verifier::opaque]
pub open spec fn permutation_spec(s: Seq<int>) -> Seq<int> {
    mds_spec(rounds_spec(s, 18))
}

/// Builds the element holding the generator multiplier.
fn g_elem() -> (r: Felt)
    ensures
        fq(r) == g(),
{
    let r = fq_from_u64(22);
    proof {
        lemma_small_mod(22nat, q() as nat);
    }
    r
}

/// Applies the flystel S-box to the state.
pub fn apply_sbox(state: &mut Vec<Felt>)
    requires
        old(state).len() == 2,
    ensures
        final(state).len() == 2,
        vals(final(state)@) == sbox_spec(vals(old(state)@)),
{
    let ghost s0: Seq<int> = vals(state@);
    let ge = g_elem();
    let de = delta();
    let x = state[0];
    let y = state[1];
    let ghost xv: int = fq(x);
    let ghost yv: int = fq(y);
    let y2 = fq_square(&y);
    let gy2 = fq_mul(&ge, &y2);
    let u = fq_sub(&x, &gy2);
    proof {
        lemma_mul_mod_noop_general(g(), yv * yv, q());
        lemma_sub_mod_noop_right(xv, g() * (yv * yv), q());
        assert(fq(u) == flystel_u(xv, yv));
    }
    let xi = exp_inv_alpha(&u);
    let ny = fq_sub(&y, &xi);
    proof {
        assert(fq(ny) == flystel_y(xv, yv));
    }
    let ny2 = fq_square(&ny);
    let gny2 = fq_mul(&ge, &ny2);
    let nx0 = fq_add(&u, &gny2);
    let nx = fq_add(&nx0, &de);
    proof {
        let nyv = flystel_y(xv, yv);
        lemma_mul_mod_noop_general(g(), nyv * nyv, q());
        lemma_add_mod_noop_right(flystel_u(xv, yv), g() * (nyv * nyv), q());
        lemma_add_mod_noop(flystel_u(xv, yv) + g() * (nyv * nyv), delta_val(), q());
        lemma_small_mod(delta_val() as nat, q() as nat);
        assert(fq(nx) == flystel_x(xv, yv));
    }
    state[0] = nx;
    state[1] = ny;
    proof {
        assert(vals(state@) =~= sbox_spec(s0));
    }
}

/// Applies the diffusion layer to the state.
pub fn apply_mds(state: &mut Vec<Felt>)
    requires
        old(state).len() == 2,
    ensures
        final(state).len() == 2,
        vals(final(state)@) == mds_spec(vals(old(state)@)),
{
    let ghost s0: Seq<int> = vals(state@);
    let ge = g_elem();
    let s1 = state[1];
    let gs1 = fq_mul(&ge, &s1);
    let a0 = state[0];
    let na = fq_add(&a0, &gs1);
    proof {
        lemma_mul_mod_noop_general(g(), s0[1], q());
        lemma_add_mod_noop_right(s0[0], g() * s0[1], q());
    }
    state[0] = na;
    let ga = fq_mul(&ge, &na);
    let b0 = state[1];
    let nb = fq_add(&b0, &ga);
    proof {
        lemma_mul_mod_noop_general(g(), (s0[0] + g() * s0[1]) % q(), q());
        lemma_add_mod_noop_right(s0[1], g() * ((s0[0] + g() * s0[1]) % q()), q());
    }
    state[1] = nb;
    proof {
        assert(vals(state@) =~= mds_spec(s0));
    }
}

/// The diffusion layer equals its full matrix form: the matrix rows are
/// `(1, g)` and `(g, g*g + 1)`, applied to the old state mod `q`.
pub proof fn lemma_mds_matrix_form(s: Seq<int>)
    requires
        s.len() == 2,
    ensures
        mds_spec(s)[0] == (1 * s[0] + g() * s[1]) % q(),
        mds_spec(s)[1] == (g() * s[0] + (g() * g() + 1) * s[1]) % q(),
{
    let a: int = (s[0] + g() * s[1]) % q();
    lemma_add_mod_noop_right(s[1], g() * a, q());
    lemma_mul_mod_noop_general(g(), s[0] + g() * s[1], q());
    lemma_add_mod_noop_right(s[1], g() * (s[0] + g() * s[1]), q());
    assert(g() * (s[0] + g() * s[1]) == g() * s[0] + (g() * g()) * s[1]) by (nonlinear_arith);
    assert(mds_spec(s)[1] == (s[1] + g() * a) % q());
    assert((s[1] + g() * a) % q() == (s[1] + (g() * a) % q()) % q());
    assert((g() * a) % q() == (g() * (s[0] + g() * s[1])) % q());
    assert((s[1] + g() * (s[0] + g() * s[1])) % q() == (g() * s[0] + (g() * g() + 1) * s[1]) % q());
    assert((s[1] + g() * a) % q() == (g() * s[0] + (g() * g() + 1) * s[1]) % q());
}

/// Builds the two flat tables of round constants, one entry per round.
pub fn round_constants() -> (t: (Vec<Felt>, Vec<Felt>))
    ensures
        t.0.len() == 18,
        t.1.len() == 18,
        forall|r: int| 0 <= r < 18 ==> fq(#[trigger] t.0@[r]) == rc_c(r as nat),
        forall|r: int| 0 <= r < 18 ==> fq(#[trigger] t.1@[r]) == rc_d(r as nat),
{
    let ge = g_elem();
    let de = delta();
    let one = fq_one();
    let p0 = fq_from_limbs(
        0x105c3ae5585c7264,
        0x102e3a805a30a36a,
        0x70f7f606dcdf6ace,
        0x0bd98003f0d7445e,
    );
    proof {
        lemma_small_mod(pi0() as nat, q() as nat);
        assert(fq(p0) == pi0());
    }
    let mut cs: Vec<Felt> = Vec::new();
    let mut ds: Vec<Felt> = Vec::new();
    let mut p0r = fq_one();
    proof {
        lemma_pow0(pi0());
        lemma_small_mod(1nat, q() as nat);
        assert(fq(p0r) == pow_m(pi0(), 0, q()));
    }
    for r in 0..18usize
        invariant
            fq(ge) == g(),
            fq(de) == delta_val(),
            fq(p0) == pi0(),
            fq(one) == 1,
            cs.len() == r,
            ds.len() == r,
            fq(p0r) == pow_m(pi0(), r as nat, q()),
            forall|k: int| 0 <= k < r ==> fq(#[trigger] cs@[k]) == rc_c(k as nat),
            forall|k: int| 0 <= k < r ==> fq(#[trigger] ds@[k]) == rc_d(k as nat),
    {
        let ghost pr: int = pow_m(pi0(), r as nat, q());
        let s = fq_add(&p0r, &one);
        let s2 = fq_square(&s);
        let s4 = fq_square(&s2);
        let s8 = fq_square(&s4);
        let s10 = fq_mul(&s8, &s2);
        let s11 = fq_mul(&s10, &s);
        proof {
            lemma_pow_m_square(fq(s), q());
            lemma_pow_m_mul(fq(s), 2nat, 2nat, q());
            lemma_pow_m_mul(fq(s), 4nat, 4nat, q());
            lemma_pow_m_mul(fq(s), 8nat, 2nat, q());
            lemma_pow_m_mul_base(fq(s), 10nat, q());
            lemma_small_mod(1nat, q() as nat);
            assert(fq(s11) == rc_pow(r as nat));
        }
        let p0r2 = fq_square(&p0r);
        let gc = fq_mul(&ge, &p0r2);
        let c = fq_add(&gc, &s11);
        proof {
            lemma_mul_mod_noop_general(g(), pr * pr, q());
            lemma_add_mod_noop(g() * (pr * pr), rc_pow(r as nat), q());
            lemma_mod_twice(rc_pow(r as nat), q());
            lemma_small_mod((g() * (pr * pr) % q()) as nat, q() as nat);
            assert(fq(c) == rc_c(r as nat));
        }
        let d0 = fq_add(&ge, &s11);
        let d = fq_add(&d0, &de);
        proof {
            lemma_small_mod(22nat, q() as nat);
            lemma_add_mod_noop(g(), rc_pow(r as nat), q());
            lemma_mod_twice(rc_pow(r as nat), q());
            lemma_add_mod_noop(g() + rc_pow(r as nat), delta_val(), q());
            lemma_small_mod(delta_val() as nat, q() as nat);
            assert(fq(d) == rc_d(r as nat));
        }
        cs.push(c);
        ds.push(d);
        p0r = fq_mul(&p0r, &p0);
        proof {
            lemma_pow_m_mul_base(pi0(), r as nat, q());
        }
    }
    (cs, ds)
}

/// Applies one round: the constants of round `step mod 18`, the
/// diffusion layer and the S-box layer.
pub fn apply_round(state: &mut Vec<Felt>, step: usize)
    requires
        old(state).len() == 2,
    ensures
        final(state).len() == 2,
        vals(final(state)@) == round_spec(vals(old(state)@), (step % 18) as nat),
{
    let ghost s0: Seq<int> = vals(state@);
    let t = round_constants();
    let cs = t.0;
    let ds = t.1;
    let r = step % 18;
    let ci = cs[r];
    let di = ds[r];
    let a = state[0];
    let b = state[1];
    let na = fq_add(&a, &ci);
    let nb = fq_add(&b, &di);
    state[0] = na;
    state[1] = nb;
    proof {
        assert(vals(state@) =~= add_constants_spec(s0, r as nat));
    }
    apply_mds(state);
    apply_sbox(state);
}

/// Applies the whole Anemoi permutation: eighteen rounds and a final
/// diffusion layer.
pub fn apply_permutation(state: &mut Vec<Felt>)
    requires
        old(state).len() == 2,
    ensures
        final(state).len() == 2,
        vals(final(state)@) == permutation_spec(vals(old(state)@)),
{
    let ghost init: Seq<int> = vals(state@);
    for r in 0..18
        invariant
            state.len() == 2,
            vals(state@) == rounds_spec(init, r as nat),
    {
        apply_round(state, r);
        proof {
            assert(r % 18 == r);
            assert(rounds_spec(init, (r + 1) as nat)
                == round_spec(rounds_spec(init, r as nat), r as nat));
        }
    }
    apply_mds(state);
    proof {
        reveal(permutation_spec);
    }
}

} // verus!
