//! The Anemoi permutation with a twelve-element state over the BN254 base
//! field: six columns, a rate of eleven elements and one element of digest.
//!
//! The state is two rows of six columns. A round adds a pair of round
//! constants to every column, applies the diffusion layer and then the
//! flystel S-box; the permutation runs ten rounds and one final diffusion
//! layer. Every function's contract states the new residues of the state
//! as a function of the old ones.

pub mod hasher;

pub use hasher::{AnemoiDigest, AnemoiHash};

use vstd::prelude::*;
use vstd::arithmetic::power::lemma_pow0;
use vstd::arithmetic::div_mod::{
    lemma_add_mod_noop, lemma_add_mod_noop_right, lemma_sub_mod_noop_right,
    lemma_mul_mod_noop_general, lemma_small_mod, lemma_mod_twice,
};
use crate::arith::{pow_m, lemma_pow_m_mul, lemma_pow_m_mul_base, lemma_pow_m_square};
use crate::bn_254::field::{
    Felt, fq, q, vals, fq_add, fq_sub, fq_mul, fq_square, fq_one, fq_from_u64, fq_from_limbs,
};
use crate::bn_254::sbox::{exp_inv_alpha, delta, delta_val, inv_alpha};

verus! {

/// The state holds twelve field elements.
pub const STATE_WIDTH: usize = 12;
/// Eleven elements of the state absorb input.
pub const RATE_WIDTH: usize = 11;
/// The state is two rows of six columns.
pub const NUM_COLUMNS: usize = 6;
/// A digest is one field element.
pub const DIGEST_SIZE: usize = 1;
/// The number of rounds of the permutation.
pub const NUM_HASH_ROUNDS: usize = 10;

/// The generator multiplier of this instance.
pub open spec fn g() -> int {
    3
}

/// The first stage of the flystel: `x` less the quadratic of `y`.
pub open spec fn flystel_u(x: int, y: int) -> int {
    (x - g() * (y * y)) % q()
}

/// The new second-row entry: `y` less the inverse-alpha power of the
/// first stage.
pub open spec fn flystel_y(x: int, y: int) -> int {
    (y - pow_m(flystel_u(x, y), inv_alpha(), q())) % q()
}

/// The new first-row entry: the first stage plus the quadratic of the new
/// `y` and the constant `delta`.
pub open spec fn flystel_x(x: int, y: int) -> int {
    (flystel_u(x, y) + g() * (flystel_y(x, y) * flystel_y(x, y)) + delta_val()) % q()
}

/// The S-box layer: the flystel applied to every column.
pub open spec fn sbox_spec(s: Seq<int>) -> Seq<int> {
    Seq::new(12, |i: int| if i < 6 {
        flystel_x(s[i], s[i + 6])
    } else {
        flystel_y(s[i - 6], s[i])
    })
}

/// One row of the circulant diffusion matrix `circ(1, 1, 3, 4, 5, 6)`
/// applied to a six-element vector.
pub open spec fn mds_row(v: Seq<int>, i: int) -> int {
    (v[i % 6] + v[(i + 1) % 6] + 3 * v[(i + 2) % 6] + 4 * v[(i + 3) % 6]
        + 5 * v[(i + 4) % 6] + 6 * v[(i + 5) % 6]) % q()
}

/// The diffusion layer: the circulant matrix on the first row, and the
/// same matrix on the second row rotated left by one column.
pub open spec fn mds_spec(s: Seq<int>) -> Seq<int> {
    let x = s.subrange(0, 6);
    let y = Seq::new(6, |j: int| s[6 + (j + 1) % 6]);
    Seq::new(12, |i: int| if i < 6 {
        mds_row(x, i)
    } else {
        mds_row(y, i - 6)
    })
}

/// The first hundred digits of pi, reduced mod `q`: the seed of the `C`
/// round constants.
pub open spec fn pi0() -> int {
    0x01d26d46c2532bd5f8e8cd7fd8f59e84e1a42156908bf74a66ad34d18bc6903eint
}

/// The second hundred digits of pi, reduced mod `q`: the seed of the `D`
/// round constants.
pub open spec fn pi1() -> int {
    0x05c18b44ebcab5531175889ed5eefb5a0025edf38096795c12d409bd527b3d58int
}

/// The shared power-of-alpha term of a round-constant pair.
pub open spec fn rc_pow(r: nat, i: nat) -> int {
    pow_m((pow_m(pi0(), r, q()) + pow_m(pi1(), i, q())) % q(), 5, q())
}

/// The round constant added to column `i` of the first row in round `r`.
pub open spec fn rc_c(r: nat, i: nat) -> int {
    (g() * (pow_m(pi0(), r, q()) * pow_m(pi0(), r, q())) + rc_pow(r, i)) % q()
}

/// The round constant added to column `i` of the second row in round `r`.
pub open spec fn rc_d(r: nat, i: nat) -> int {
    (g() * (pow_m(pi1(), i, q()) * pow_m(pi1(), i, q())) + rc_pow(r, i) + delta_val()) % q()
}

/// The constant-addition stage of round `r`.
pub open spec fn add_constants_spec(s: Seq<int>, r: nat) -> Seq<int> {
    Seq::new(12, |i: int| if i < 6 {
        (s[i] + rc_c(r, i as nat)) % q()
    } else {
        (s[i] + rc_d(r, (i - 6) as nat)) % q()
    })
}

/// One full round: constants, diffusion, S-box.
pub open spec fn round_spec(s: Seq<int>, r: nat) -> Seq<int> {
    sbox_spec(mds_spec(add_constants_spec(s, r)))
}

/// The first `n` rounds applied in order.
pub open spec fn rounds_spec(s: Seq<int>, n: nat) -> Seq<int>
    decreases n,
{
    if n == 0 {
        s
    } else {
        round_spec(rounds_spec(s, (n - 1) as nat), (n - 1) as nat)
    }
}

/// The whole permutation: ten rounds and a final diffusion layer.
#[verifier::opaque]
pub open spec fn permutation_spec(s: Seq<int>) -> Seq<int> {
    mds_spec(rounds_spec(s, 10))
}

/// A flat table of round constants: entry `r * 6 + i` holds the constant
/// of round `r`, column `i`.
pub open spec fn c_table_ok(cs: Seq<Felt>) -> bool {
    cs.len() == 60 && forall|k: int| 0 <= k < 60 ==>
        fq(#[trigger] cs[k]) == rc_c((k / 6) as nat, (k % 6) as nat)
}

/// The same layout for the second-row constants.
pub open spec fn d_table_ok(ds: Seq<Felt>) -> bool {
    ds.len() == 60 && forall|k: int| 0 <= k < 60 ==>
        fq(#[trigger] ds[k]) == rc_d((k / 6) as nat, (k % 6) as nat)
}

/// Builds the element holding the generator multiplier.
fn g_elem() -> (r: Felt)
    ensures
        fq(r) == g(),
{
    let r = fq_from_u64(3);
    proof {
        lemma_small_mod(3nat, q() as nat);
    }
    r
}

/// Applies the flystel S-box to every column of the state.
pub fn apply_sbox(state: &mut Vec<Felt>)
    requires
        old(state).len() == 12,
    ensures
        final(state).len() == 12,
        vals(final(state)@) == sbox_spec(vals(old(state)@)),
{
    let ghost orig: Seq<Felt> = state@;
    let ghost s0: Seq<int> = vals(orig);
    let ge = g_elem();
    let de = delta();
    for i in 0..6
        invariant
            state.len() == 12,
            fq(ge) == g(),
            fq(de) == delta_val(),
            orig.len() == 12,
            s0 == vals(orig),
            forall|j: int| 0 <= j < i ==> fq(#[trigger] state@[j]) == flystel_x(s0[j], s0[j + 6]),
            forall|j: int| 6 <= j < i + 6 ==> fq(#[trigger] state@[j]) == flystel_y(s0[j - 6], s0[j]),
            forall|j: int| i <= j < 6 ==> #[trigger] state@[j] == orig[j],
            forall|j: int| i + 6 <= j < 12 ==> #[trigger] state@[j] == orig[j],
    {
        let x = state[i];
        let y = state[i + 6];
        let ghost xv: int = fq(x);
        let ghost yv: int = fq(y);
        let y2 = fq_square(&y);
        let gy2 = fq_mul(&ge, &y2);
        let u = fq_sub(&x, &gy2);
        proof {
            lemma_mul_mod_noop_general(g(), yv * yv, q());
            lemma_sub_mod_noop_right(xv, g() * (yv * yv), q());
            assert(fq(u) == flystel_u(xv, yv));
        }
        let xi = exp_inv_alpha(&u);
        let ny = fq_sub(&y, &xi);
        proof {
            assert(fq(ny) == flystel_y(xv, yv));
        }
        let ny2 = fq_square(&ny);
        let gny2 = fq_mul(&ge, &ny2);
        let nx0 = fq_add(&u, &gny2);
        let nx = fq_add(&nx0, &de);
        proof {
            let nyv = flystel_y(xv, yv);
            lemma_mul_mod_noop_general(g(), nyv * nyv, q());
            lemma_add_mod_noop_right(flystel_u(xv, yv), g() * (nyv * nyv), q());
            lemma_add_mod_noop(flystel_u(xv, yv) + g() * (nyv * nyv), delta_val(), q());
            lemma_small_mod(delta_val() as nat, q() as nat);
            assert(fq(nx) == flystel_x(xv, yv));
        }
        state[i] = nx;
        state[i + 6] = ny;
        proof {
            assert(state@[i as int] == nx);
            assert(state@[i + 6] == ny);
            assert(xv == s0[i as int]);
            assert(yv == s0[i + 6]);
        }
    }
    proof {
        assert(vals(state@) =~= sbox_spec(s0));
    }
}

/// One row of the diffusion matrix applied to a six-element vector.
fn mds_dot(v: &Vec<Felt>, i: usize) -> (r: Felt)
    requires
        v.len() == 6,
        i < 6,
    ensures
        fq(r) == mds_row(vals(v@), i as int),
{
    let ghost w: Seq<int> = vals(v@);
    let c3 = fq_from_u64(3);
    let c4 = fq_from_u64(4);
    let c5 = fq_from_u64(5);
    let c6 = fq_from_u64(6);
    proof {
        lemma_small_mod(3nat, q() as nat);
        lemma_small_mod(4nat, q() as nat);
        lemma_small_mod(5nat, q() as nat);
        lemma_small_mod(6nat, q() as nat);
    }
    let j1 = (i + 1) % 6;
    let j2 = (i + 2) % 6;
    let j3 = (i + 3) % 6;
    let j4 = (i + 4) % 6;
    let j5 = (i + 5) % 6;
    let t0 = v[i];
    let t1 = v[j1];
    let mut acc = fq_add(&t0, &t1);
    let ghost p1: int = w[i as int] + w[j1 as int];
    let t2 = v[j2];
    let m2 = fq_mul(&c3, &t2);
    proof {
        lemma_add_mod_noop(p1, 3 * w[j2 as int], q());
        lemma_mod_twice(3 * w[j2 as int], q());
    }
    acc = fq_add(&acc, &m2);
    let ghost p2: int = p1 + 3 * w[j2 as int];
    let t3 = v[j3];
    let m3 = fq_mul(&c4, &t3);
    proof {
        lemma_add_mod_noop(p2, 4 * w[j3 as int], q());
        lemma_mod_twice(4 * w[j3 as int], q());
    }
    acc = fq_add(&acc, &m3);
    let ghost p3: int = p2 + 4 * w[j3 as int];
    let t4 = v[j4];
    let m4 = fq_mul(&c5, &t4);
    proof {
        lemma_add_mod_noop(p3, 5 * w[j4 as int], q());
        lemma_mod_twice(5 * w[j4 as int], q());
    }
    acc = fq_add(&acc, &m4);
    let ghost p4: int = p3 + 5 * w[j4 as int];
    let t5 = v[j5];
    let m5 = fq_mul(&c6, &t5);
    proof {
        lemma_add_mod_noop(p4, 6 * w[j5 as int], q());
        lemma_mod_twice(6 * w[j5 as int], q());
    }
    acc = fq_add(&acc, &m5);
    proof {
        assert(fq(acc) == mds_row(w, i as int));
    }
    acc
}

/// Applies the diffusion layer to the state.
pub fn apply_mds(state: &mut Vec<Felt>)
    requires
        old(state).len() == 12,
    ensures
        final(state).len() == 12,
        vals(final(state)@) == mds_spec(vals(old(state)@)),
{
    let ghost orig: Seq<Felt> = state@;
    let ghost s0: Seq<int> = vals(orig);
    let mut x: Vec<Felt> = Vec::new();
    for i in 0..6
        invariant
            state.len() == 12,
            state@ == orig,
            x.len() == i,
            forall|k: int| 0 <= k < i ==> #[trigger] x@[k] == orig[k],
    {
        let e = state[i];
        x.push(e);
    }
    let mut y: Vec<Felt> = Vec::new();
    for j in 0..6
        invariant
            state.len() == 12,
            state@ == orig,
            y.len() == j,
            forall|k: int| 0 <= k < j ==> #[trigger] y@[k] == orig[6 + (k + 1) % 6],
    {
        let e = state[6 + (j + 1) % 6];
        y.push(e);
    }
    proof {
        assert(vals(x@) =~= s0.subrange(0, 6));
        assert(vals(y@) =~= Seq::new(6, |j: int| s0[6 + (j + 1) % 6]));
    }
    for i in 0..6
        invariant
            state.len() == 12,
            x.len() == 6,
            y.len() == 6,
            vals(x@) == s0.subrange(0, 6),
            vals(y@) == Seq::new(6, |j: int| s0[6 + (j + 1) % 6]),
            forall|j: int| 0 <= j < i ==> fq(#[trigger] state@[j]) == mds_row(s0.subrange(0, 6), j),
            forall|j: int| 6 <= j < i + 6 ==> fq(#[trigger] state@[j])
                == mds_row(Seq::new(6, |k: int| s0[6 + (k + 1) % 6]), j - 6),
    {
        let nx = mds_dot(&x, i);
        let ny = mds_dot(&y, i);
        state[i] = nx;
        state[i + 6] = ny;
    }
    proof {
        assert(vals(state@) =~= mds_spec(s0));
    }
}

/// Builds the two flat tables of round constants, sixty entries each:
/// one per round and column, in round-major order.
pub fn round_constants() -> (t: (Vec<Felt>, Vec<Felt>))
    ensures
        c_table_ok(t.0@),
        d_table_ok(t.1@),
{
    let ge = g_elem();
    let de = delta();
    let p0 = fq_from_limbs(
        0x66ad34d18bc6903e,
        0xe1a42156908bf74a,
        0xf8e8cd7fd8f59e84,
        0x01d26d46c2532bd5,
    );
    let p1 = fq_from_limbs(
        0x12d409bd527b3d58,
        0x0025edf38096795c,
        0x1175889ed5eefb5a,
        0x05c18b44ebcab553,
    );
    proof {
        lemma_small_mod(pi0() as nat, q() as nat);
        lemma_small_mod(pi1() as nat, q() as nat);
        assert(fq(p0) == pi0());
        assert(fq(p1) == pi1());
    }
    let mut cs: Vec<Felt> = Vec::new();
    let mut ds: Vec<Felt> = Vec::new();
    let mut p0r = fq_one();
    proof {
        lemma_pow0(pi0());
        lemma_small_mod(1nat, q() as nat);
        assert(fq(p0r) == pow_m(pi0(), 0, q()));
    }
    for r in 0..10usize
        invariant
            fq(ge) == g(),
            fq(de) == delta_val(),
            fq(p0) == pi0(),
            fq(p1) == pi1(),
            cs.len() == 6 * r,
            ds.len() == 6 * r,
            fq(p0r) == pow_m(pi0(), r as nat, q()),
            forall|k: int| 0 <= k < 6 * r ==>
                fq(#[trigger] cs@[k]) == rc_c((k / 6) as nat, (k % 6) as nat),
            forall|k: int| 0 <= k < 6 * r ==>
                fq(#[trigger] ds@[k]) == rc_d((k / 6) as nat, (k % 6) as nat),
    {
        let mut p1i = fq_one();
        proof {
            lemma_pow0(pi1());
            lemma_small_mod(1nat, q() as nat);
            assert(fq(p1i) == pow_m(pi1(), 0, q()));
        }
        for i in 0..6usize
            invariant
                fq(ge) == g(),
                fq(de) == delta_val(),
                fq(p0) == pi0(),
                fq(p1) == pi1(),
                r < 10,
                cs.len() == 6 * r + i,
                ds.len() == 6 * r + i,
                fq(p0r) == pow_m(pi0(), r as nat, q()),
                fq(p1i) == pow_m(pi1(), i as nat, q()),
                forall|k: int| 0 <= k < 6 * r + i ==>
                    fq(#[trigger] cs@[k]) == rc_c((k / 6) as nat, (k % 6) as nat),
                forall|k: int| 0 <= k < 6 * r + i ==>
                    fq(#[trigger] ds@[k]) == rc_d((k / 6) as nat, (k % 6) as nat),
        {
            let ghost pr: int = pow_m(pi0(), r as nat, q());
            let ghost pi_: int = pow_m(pi1(), i as nat, q());
            let s = fq_add(&p0r, &p1i);
            let s2 = fq_square(&s);
            let s4 = fq_square(&s2);
            let s5 = fq_mul(&s4, &s);
            proof {
                lemma_pow_m_square(fq(s), q());
                lemma_pow_m_mul(fq(s), 2nat, 2nat, q());
                lemma_pow_m_mul_base(fq(s), 4nat, q());
                assert(fq(s5) == rc_pow(r as nat, i as nat));
            }
            let p0r2 = fq_square(&p0r);
            let gc = fq_mul(&ge, &p0r2);
            let c = fq_add(&gc, &s5);
            proof {
                lemma_mul_mod_noop_general(g(), pr * pr, q());
                lemma_add_mod_noop(g() * (pr * pr), rc_pow(r as nat, i as nat), q());
                lemma_mod_twice(rc_pow(r as nat, i as nat), q());
                assert(fq(c) == rc_c(r as nat, i as nat));
            }
            let p1i2 = fq_square(&p1i);
            let gd = fq_mul(&ge, &p1i2);
            let d0 = fq_add(&gd, &s5);
            let d = fq_add(&d0, &de);
            proof {
                lemma_mul_mod_noop_general(g(), pi_ * pi_, q());
                lemma_add_mod_noop(g() * (pi_ * pi_), rc_pow(r as nat, i as nat), q());
                lemma_mod_twice(rc_pow(r as nat, i as nat), q());
                lemma_add_mod_noop(g() * (pi_ * pi_) + rc_pow(r as nat, i as nat), delta_val(), q());
                lemma_small_mod(delta_val() as nat, q() as nat);
                assert(fq(d) == rc_d(r as nat, i as nat));
            }
            proof {
                assert((6 * (r as int) + (i as int)) / 6 == r as int);
                assert((6 * (r as int) + (i as int)) % 6 == i as int);
            }
            cs.push(c);
            ds.push(d);
            p1i = fq_mul(&p1i, &p1);
            proof {
                lemma_pow_m_mul_base(pi1(), i as nat, q());
            }
        }
        p0r = fq_mul(&p0r, &p0);
        proof {
            lemma_pow_m_mul_base(pi0(), r as nat, q());
        }
    }
    (cs, ds)
}

/// Applies one round: the constants of round `step mod 10`, the diffusion
/// layer and the S-box layer.
pub fn apply_round(state: &mut Vec<Felt>, step: usize)
    requires
        old(state).len() == 12,
    ensures
        final(state).len() == 12,
        vals(final(state)@) == round_spec(vals(old(state)@), (step % 10) as nat),
{
    let t = round_constants();
    let cs = t.0;
    let ds = t.1;
    let r = step % 10;
    let ghost orig: Seq<Felt> = state@;
    let ghost s0: Seq<int> = vals(orig);
    for i in 0..6
        invariant
            state.len() == 12,
            orig.len() == 12,
            s0 == vals(orig),
            c_table_ok(cs@),
            d_table_ok(ds@),
            r == step % 10,
            r < 10,
            forall|j: int| 0 <= j < i ==> fq(#[trigger] state@[j]) == (s0[j] + rc_c(r as nat, j as nat)) % q(),
            forall|j: int| 6 <= j < i + 6 ==> fq(#[trigger] state@[j])
                == (s0[j] + rc_d(r as nat, (j - 6) as nat)) % q(),
            forall|j: int| i <= j < 6 ==> #[trigger] state@[j] == orig[j],
            forall|j: int| i + 6 <= j < 12 ==> #[trigger] state@[j] == orig[j],
    {
        let ci = cs[r * 6 + i];
        let di = ds[r * 6 + i];
        proof {
            assert((6 * (r as int) + (i as int)) / 6 == r as int);
            assert((6 * (r as int) + (i as int)) % 6 == i as int);
            assert(fq(ci) == rc_c(r as nat, i as nat));
            assert(fq(di) == rc_d(r as nat, i as nat));
        }
        let a = state[i];
        let b = state[i + 6];
        let na = fq_add(&a, &ci);
        let nb = fq_add(&b, &di);
        state[i] = na;
        state[i + 6] = nb;
    }
    proof {
        assert(vals(state@) =~= add_constants_spec(s0, r as nat));
    }
    apply_mds(state);
    apply_sbox(state);
}

/// Applies the whole Anemoi permutation: ten rounds and a final
/// diffusion layer.
pub fn apply_permutation(state: &mut Vec<Felt>)
    requires
        old(state).len() == 12,
    ensures
        final(state).len() == 12,
        vals(final(state)@) == permutation_spec(vals(old(state)@)),
{
    let ghost init: Seq<int> = vals(state@);
    for r in 0..10
        invariant
            state.len() == 12,
            vals(state@) == rounds_spec(init, r as nat),
    {
        apply_round(state, r);
        proof {
            assert(r % 10 == r);
            assert(rounds_spec(init, (r + 1) as nat)
                == round_spec(rounds_spec(init, r as nat), r as nat));
        }
    }
    apply_mds(state);
    proof {
        reveal(permutation_spec);
    }
}


} // verus!
