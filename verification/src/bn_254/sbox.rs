//! The inverse-alpha power map of the Anemoi S-box over the BN254 base field.
//!
//! The S-box raises an element to the inverse of `ALPHA = 5` modulo `q - 1`.
//! Rather than a generic square-and-multiply scan, the map is computed by a
//! fixed addition chain: a straight-line sequence of squarings and
//! multiplications whose final exponent is exactly `INV_ALPHA`. The chain
//! does not branch on its input. Each step below is proved to hold the
//! stated power of the input, so the function's contract pins the result
//! to `x^INV_ALPHA mod q`.

use vstd::prelude::*;
use crate::arith::{pow_m, lemma_pow_m_mul, lemma_pow_m_mul_base, lemma_pow_m_square};
use crate::bn_254::field::{Felt, fq, q, fq_square, fq_mul, fq_from_limbs};

verus! {

/// The forward S-box exponent.
pub const ALPHA: u32 = 5;

/// The little-endian limbs of the inverse exponent `ALPHA^-1 mod (q - 1)`.
pub const INV_ALPHA: [u64; 4] = [
    0x180d04d5f031fee9,
    0xd633c43a29c71dd2,
    0x49b9b57c33cd568b,
    0x135b52945a13d9aa,
];

/// The inverse exponent `ALPHA^-1 mod (q - 1)` as an integer.
pub open spec fn inv_alpha() -> nat {
    0x135b52945a13d9aa49b9b57c33cd568bd633c43a29c71dd2180d04d5f031fee9nat
}

/// The additive constant of the S-box second half: the inverse of the
/// generator, `3^-1 mod q`.
pub open spec fn delta_val() -> int {
    0x2042def740cbc01bd03583cf0100e593ba56470b9af68708d2c05d6490535385int
}

/// The element holding `delta_val`.
pub(crate) fn delta() -> (r: Felt)
    ensures
        fq(r) == delta_val(),
{
    let r = fq_from_limbs(
        0xd2c05d6490535385,
        0xba56470b9af68708,
        0xd03583cf0100e593,
        0x2042def740cbc01b,
    );
    r
}

/// The first stage of the chain: small shared powers of the input.
fn chain_powers(x: &Felt) -> (ts: Vec<Felt>)
    ensures
        ts.len() == 21,
        fq(ts[0]) == pow_m(fq(*x), 9nat, q()),
        fq(ts[1]) == pow_m(fq(*x), 247nat, q()),
        fq(ts[2]) == pow_m(fq(*x), 399nat, q()),
        fq(ts[3]) == pow_m(fq(*x), 31nat, q()),
        fq(ts[4]) == pow_m(fq(*x), 309nat, q()),
        fq(ts[5]) == pow_m(fq(*x), 13nat, q()),
        fq(ts[6]) == pow_m(fq(*x), 67nat, q()),
        fq(ts[7]) == pow_m(fq(*x), 477nat, q()),
        fq(ts[8]) == pow_m(fq(*x), 455nat, q()),
        fq(ts[9]) == pow_m(fq(*x), 69nat, q()),
        fq(ts[10]) == pow_m(fq(*x), 135nat, q()),
        fq(ts[11]) == pow_m(fq(*x), 207nat, q()),
        fq(ts[12]) == pow_m(fq(*x), 491nat, q()),
        fq(ts[13]) == pow_m(fq(*x), 209nat, q()),
        fq(ts[14]) == pow_m(fq(*x), 213nat, q()),
        fq(ts[15]) == pow_m(fq(*x), 181nat, q()),
        fq(ts[16]) == pow_m(fq(*x), 441nat, q()),
        fq(ts[17]) == pow_m(fq(*x), 73nat, q()),
        fq(ts[18]) == pow_m(fq(*x), 317nat, q()),
        fq(ts[19]) == pow_m(fq(*x), 45nat, q()),
        fq(ts[20]) == pow_m(fq(*x), 165nat, q()),
{
    let ghost xv: int = fq(*x);
    let t14 = fq_square(x);
    proof { lemma_pow_m_square(xv, q()); }
    assert(fq(t14) == pow_m(xv, 2nat, q()));
    let t2 = fq_mul(&t14, x);
    proof { lemma_pow_m_mul_base(xv, 2nat, q()); }
    assert(fq(t2) == pow_m(xv, 3nat, q()));
    let t1 = fq_square(&t14);
    proof { lemma_pow_m_mul(xv, 2nat, 2nat, q()); }
    assert(fq(t1) == pow_m(xv, 4nat, q()));
    let t0 = fq_mul(&t2, &t14);
    proof { lemma_pow_m_mul(xv, 3nat, 2nat, q()); }
    assert(fq(t0) == pow_m(xv, 5nat, q()));
    let t2 = fq_square(&t2);
    proof { lemma_pow_m_mul(xv, 3nat, 3nat, q()); }
    assert(fq(t2) == pow_m(xv, 6nat, q()));
    let t13 = fq_square(&t1);
    proof { lemma_pow_m_mul(xv, 4nat, 4nat, q()); }
    assert(fq(t13) == pow_m(xv, 8nat, q()));
    let t1 = fq_mul(&t0, &t1);
    proof { lemma_pow_m_mul(xv, 5nat, 4nat, q()); }
    assert(fq(t1) == pow_m(xv, 9nat, q()));
    let t6 = fq_mul(&t13, &t0);
    proof { lemma_pow_m_mul(xv, 8nat, 5nat, q()); }
    assert(fq(t6) == pow_m(xv, 13nat, q()));
    let t0 = fq_mul(&t13, &t2);
    proof { lemma_pow_m_mul(xv, 8nat, 6nat, q()); }
    assert(fq(t0) == pow_m(xv, 14nat, q()));
    let t12 = fq_square(&t13);
    proof { lemma_pow_m_mul(xv, 8nat, 8nat, q()); }
    assert(fq(t12) == pow_m(xv, 16nat, q()));
    let t8 = fq_mul(&t6, &t1);
    proof { lemma_pow_m_mul(xv, 13nat, 9nat, q()); }
    assert(fq(t8) == pow_m(xv, 22nat, q()));
    let t3 = fq_square(&t6);
    proof { lemma_pow_m_mul(xv, 13nat, 13nat, q()); }
    assert(fq(t3) == pow_m(xv, 26nat, q()));
    let t15 = fq_mul(&t12, &t0);
    proof { lemma_pow_m_mul(xv, 16nat, 14nat, q()); }
    assert(fq(t15) == pow_m(xv, 30nat, q()));
    let t4 = fq_mul(&t8, &t1);
    proof { lemma_pow_m_mul(xv, 22nat, 9nat, q()); }
    assert(fq(t4) == pow_m(xv, 31nat, q()));
    let t9 = fq_mul(&t3, &t12);
    proof { lemma_pow_m_mul(xv, 26nat, 16nat, q()); }
    assert(fq(t9) == pow_m(xv, 42nat, q()));
    let t20 = fq_mul(&t4, &t0);
    proof { lemma_pow_m_mul(xv, 31nat, 14nat, q()); }
    assert(fq(t20) == pow_m(xv, 45nat, q()));
    let t3 = fq_mul(&t4, &t8);
    proof { lemma_pow_m_mul(xv, 31nat, 22nat, q()); }
    assert(fq(t3) == pow_m(xv, 53nat, q()));
    let t5 = fq_square(&t4);
    proof { lemma_pow_m_mul(xv, 31nat, 31nat, q()); }
    assert(fq(t5) == pow_m(xv, 62nat, q()));
    let t7 = fq_mul(&t20, &t8);
    proof { lemma_pow_m_mul(xv, 45nat, 22nat, q()); }
    assert(fq(t7) == pow_m(xv, 67nat, q()));
    let t10 = fq_mul(&t3, &t12);
    proof { lemma_pow_m_mul(xv, 53nat, 16nat, q()); }
    assert(fq(t10) == pow_m(xv, 69nat, q()));
    let t18 = fq_mul(&t9, &t4);
    proof { lemma_pow_m_mul(xv, 42nat, 31nat, q()); }
    assert(fq(t18) == pow_m(xv, 73nat, q()));
    let t3 = fq_mul(&t10, &t6);
    proof { lemma_pow_m_mul(xv, 69nat, 13nat, q()); }
    assert(fq(t3) == pow_m(xv, 82nat, q()));
    let t11 = fq_mul(&t18, &t5);
    proof { lemma_pow_m_mul(xv, 73nat, 62nat, q()); }
    assert(fq(t11) == pow_m(xv, 135nat, q()));
    let t21 = fq_mul(&t11, &t15);
    proof { lemma_pow_m_mul(xv, 135nat, 30nat, q()); }
    assert(fq(t21) == pow_m(xv, 165nat, q()));
    let t16 = fq_mul(&t21, &t12);
    proof { lemma_pow_m_mul(xv, 165nat, 16nat, q()); }
    assert(fq(t16) == pow_m(xv, 181nat, q()));
    let t12 = fq_mul(&t21, &t9);
    proof { lemma_pow_m_mul(xv, 165nat, 42nat, q()); }
    assert(fq(t12) == pow_m(xv, 207nat, q()));
    let t14 = fq_mul(&t12, &t14);
    proof { lemma_pow_m_mul(xv, 207nat, 2nat, q()); }
    assert(fq(t14) == pow_m(xv, 209nat, q()));
    let t15 = fq_mul(&t12, &t2);
    proof { lemma_pow_m_mul(xv, 207nat, 6nat, q()); }
    assert(fq(t15) == pow_m(xv, 213nat, q()));
    let t2 = fq_mul(&t21, &t3);
    proof { lemma_pow_m_mul(xv, 165nat, 82nat, q()); }
    assert(fq(t2) == pow_m(xv, 247nat, q()));
    let t5 = fq_mul(&t2, &t5);
    proof { lemma_pow_m_mul(xv, 247nat, 62nat, q()); }
    assert(fq(t5) == pow_m(xv, 309nat, q()));
    let t19 = fq_mul(&t5, &t13);
    proof { lemma_pow_m_mul(xv, 309nat, 8nat, q()); }
    assert(fq(t19) == pow_m(xv, 317nat, q()));
    let t3 = fq_mul(&t19, &t3);
    proof { lemma_pow_m_mul(xv, 317nat, 82nat, q()); }
    assert(fq(t3) == pow_m(xv, 399nat, q()));
    let t17 = fq_mul(&t3, &t9);
    proof { lemma_pow_m_mul(xv, 399nat, 42nat, q()); }
    assert(fq(t17) == pow_m(xv, 441nat, q()));
    let t9 = fq_mul(&t17, &t0);
    proof { lemma_pow_m_mul(xv, 441nat, 14nat, q()); }
    assert(fq(t9) == pow_m(xv, 455nat, q()));
    let t8 = fq_mul(&t9, &t8);
    proof { lemma_pow_m_mul(xv, 455nat, 22nat, q()); }
    assert(fq(t8) == pow_m(xv, 477nat, q()));
    let t13 = fq_mul(&t8, &t0);
    proof { lemma_pow_m_mul(xv, 477nat, 14nat, q()); }
    assert(fq(t13) == pow_m(xv, 491nat, q()));
    let mut ts: Vec<Felt> = Vec::new();
    ts.push(t1);
    ts.push(t2);
    ts.push(t3);
    ts.push(t4);
    ts.push(t5);
    ts.push(t6);
    ts.push(t7);
    ts.push(t8);
    ts.push(t9);
    ts.push(t10);
    ts.push(t11);
    ts.push(t12);
    ts.push(t13);
    ts.push(t14);
    ts.push(t15);
    ts.push(t16);
    ts.push(t17);
    ts.push(t18);
    ts.push(t19);
    ts.push(t20);
    ts.push(t21);
    assert(fq(ts[0]) == pow_m(fq(*x), 9nat, q()));
    assert(fq(ts[1]) == pow_m(fq(*x), 247nat, q()));
    assert(fq(ts[2]) == pow_m(fq(*x), 399nat, q()));
    assert(fq(ts[3]) == pow_m(fq(*x), 31nat, q()));
    assert(fq(ts[4]) == pow_m(fq(*x), 309nat, q()));
    assert(fq(ts[5]) == pow_m(fq(*x), 13nat, q()));
    assert(fq(ts[6]) == pow_m(fq(*x), 67nat, q()));
    assert(fq(ts[7]) == pow_m(fq(*x), 477nat, q()));
    assert(fq(ts[8]) == pow_m(fq(*x), 455nat, q()));
    assert(fq(ts[9]) == pow_m(fq(*x), 69nat, q()));
    assert(fq(ts[10]) == pow_m(fq(*x), 135nat, q()));
    assert(fq(ts[11]) == pow_m(fq(*x), 207nat, q()));
    assert(fq(ts[12]) == pow_m(fq(*x), 491nat, q()));
    assert(fq(ts[13]) == pow_m(fq(*x), 209nat, q()));
    assert(fq(ts[14]) == pow_m(fq(*x), 213nat, q()));
    assert(fq(ts[15]) == pow_m(fq(*x), 181nat, q()));
    assert(fq(ts[16]) == pow_m(fq(*x), 441nat, q()));
    assert(fq(ts[17]) == pow_m(fq(*x), 73nat, q()));
    assert(fq(ts[18]) == pow_m(fq(*x), 317nat, q()));
    assert(fq(ts[19]) == pow_m(fq(*x), 45nat, q()));
    assert(fq(ts[20]) == pow_m(fq(*x), 165nat, q()));
    ts
}

/// One stage of the long scan of the chain.
fn chain_scan_1(x: &Felt, ts: &Vec<Felt>) -> (r: Felt)
    requires
        ts.len() == 21,
        fq(ts[4]) == pow_m(fq(*x), 309nat, q()),
        fq(ts[15]) == pow_m(fq(*x), 181nat, q()),
        fq(ts[18]) == pow_m(fq(*x), 317nat, q()),
        fq(ts[19]) == pow_m(fq(*x), 45nat, q()),
        fq(ts[20]) == pow_m(fq(*x), 165nat, q()),
    ensures
        fq(r) == pow_m(fq(*x), 174349913340148533nat, q()),
{
    let ghost xv: int = fq(*x);
    let t0 = fq_square(&ts[4]);
    proof { lemma_pow_m_mul(xv, 309nat, 309nat, q()); }
    assert(fq(t0) == pow_m(xv, 618nat, q()));
    let t0 = fq_square(&t0);
    proof { lemma_pow_m_mul(xv, 618nat, 618nat, q()); }
    assert(fq(t0) == pow_m(xv, 1236nat, q()));
    let t0 = fq_square(&t0);
    proof { lemma_pow_m_mul(xv, 1236nat, 1236nat, q()); }
    assert(fq(t0) == pow_m(xv, 2472nat, q()));
    let t0 = fq_square(&t0);
    proof { lemma_pow_m_mul(xv, 2472nat, 2472nat, q()); }
    assert(fq(t0) == pow_m(xv, 4944nat, q()));
    let t0 = fq_square(&t0);
    proof { lemma_pow_m_mul(xv, 4944nat, 4944nat, q()); }
    assert(fq(t0) == pow_m(xv, 9888nat, q()));
    let t0 = fq_square(&t0);
    proof { lemma_pow_m_mul(xv, 9888nat, 9888nat, q()); }
    assert(fq(t0) == pow_m(xv, 19776nat, q()));
    let t0 = fq_square(&t0);
    proof { lemma_pow_m_mul(xv, 19776nat, 19776nat, q()); }
    assert(fq(t0) == pow_m(xv, 39552nat, q()));
    let t0 = fq_square(&t0);
    proof { lemma_pow_m_mul(xv, 39552nat, 39552nat, q()); }
    assert(fq(t0) == pow_m(xv, 79104nat, q()));
    let t0 = fq_mul(&t0, &ts[15]);
    proof { lemma_pow_m_mul(xv, 79104nat, 181nat, q()); }
    assert(fq(t0) == pow_m(xv, 79285nat, q()));
    let t0 = fq_square(&t0);
    proof { lemma_pow_m_mul(xv, 79285nat, 79285nat, q()); }
    assert(fq(t0) == pow_m(xv, 158570nat, q()));
    let t0 = fq_square(&t0);
    proof { lemma_pow_m_mul(xv, 158570nat, 158570nat, q()); }
    assert(fq(t0) == pow_m(xv, 317140nat, q()));
    let t0 = fq_square(&t0);
    proof { lemma_pow_m_mul(xv, 317140nat, 317140nat, q()); }
    assert(fq(t0) == pow_m(xv, 634280nat, q()));
    let t0 = fq_square(&t0);
    proof { lemma_pow_m_mul(xv, 634280nat, 634280nat, q()); }
    assert(fq(t0) == pow_m(xv, 1268560nat, q()));
    let t0 = fq_square(&t0);
    proof { lemma_pow_m_mul(xv, 1268560nat, 1268560nat, q()); }
    assert(fq(t0) == pow_m(xv, 2537120nat, q()));
    let t0 = fq_square(&t0);
    proof { lemma_pow_m_mul(xv, 2537120nat, 2537120nat, q()); }
    assert(fq(t0) == pow_m(xv, 5074240nat, q()));
    let t0 = fq_square(&t0);
    proof { lemma_pow_m_mul(xv, 5074240nat, 5074240nat, q()); }
    assert(fq(t0) == pow_m(xv, 10148480nat, q()));
    let t0 = fq_square(&t0);
    proof { lemma_pow_m_mul(xv, 10148480nat, 10148480nat, q()); }
    assert(fq(t0) == pow_m(xv, 20296960nat, q()));
    let t0 = fq_square(&t0);
    proof { lemma_pow_m_mul(xv, 20296960nat, 20296960nat, q()); }
    assert(fq(t0) == pow_m(xv, 40593920nat, q()));
    let t0 = fq_square(&t0);
    proof { lemma_pow_m_mul(xv, 40593920nat, 40593920nat, q()); }
    assert(fq(t0) == pow_m(xv, 81187840nat, q()));
    let t0 = fq_mul(&t0, &ts[20]);
    proof { lemma_pow_m_mul(xv, 81187840nat, 165nat, q()); }
    assert(fq(t0) == pow_m(xv, 81188005nat, q()));
    let t0 = fq_square(&t0);
    proof { lemma_pow_m_mul(xv, 81188005nat, 81188005nat, q()); }
    assert(fq(t0) == pow_m(xv, 162376010nat, q()));
    let t0 = fq_square(&t0);
    proof { lemma_pow_m_mul(xv, 162376010nat, 162376010nat, q()); }
    assert(fq(t0) == pow_m(xv, 324752020nat, q()));
    let t0 = fq_square(&t0);
    proof { lemma_pow_m_mul(xv, 324752020nat, 324752020nat, q()); }
    assert(fq(t0) == pow_m(xv, 649504040nat, q()));
    let t0 = fq_square(&t0);
    proof { lemma_pow_m_mul(xv, 649504040nat, 649504040nat, q()); }
    assert(fq(t0) == pow_m(xv, 1299008080nat, q()));
    let t0 = fq_square(&t0);
    proof { lemma_pow_m_mul(xv, 1299008080nat, 1299008080nat, q()); }
    assert(fq(t0) == pow_m(xv, 2598016160nat, q()));
    let t0 = fq_square(&t0);
    proof { lemma_pow_m_mul(xv, 2598016160nat, 2598016160nat, q()); }
    assert(fq(t0) == pow_m(xv, 5196032320nat, q()));
    let t0 = fq_square(&t0);
    proof { lemma_pow_m_mul(xv, 5196032320nat, 5196032320nat, q()); }
    assert(fq(t0) == pow_m(xv, 10392064640nat, q()));
    let t0 = fq_square(&t0);
    proof { lemma_pow_m_mul(xv, 10392064640nat, 10392064640nat, q()); }
    assert(fq(t0) == pow_m(xv, 20784129280nat, q()));
    let t0 = fq_square(&t0);
    proof { lemma_pow_m_mul(xv, 20784129280nat, 20784129280nat, q()); }
    assert(fq(t0) == pow_m(xv, 41568258560nat, q()));
    let t0 = fq_mul(&t0, &ts[19]);
    proof { lemma_pow_m_mul(xv, 41568258560nat, 45nat, q()); }
    assert(fq(t0) == pow_m(xv, 41568258605nat, q()));
    let t0 = fq_square(&t0);
    proof { lemma_pow_m_mul(xv, 41568258605nat, 41568258605nat, q()); }
    assert(fq(t0) == pow_m(xv, 83136517210nat, q()));
    let t0 = fq_square(&t0);
    proof { lemma_pow_m_mul(xv, 83136517210nat, 83136517210nat, q()); }
    assert(fq(t0) == pow_m(xv, 166273034420nat, q()));
    let t0 = fq_square(&t0);
    proof { lemma_pow_m_mul(xv, 166273034420nat, 166273034420nat, q()); }
    assert(fq(t0) == pow_m(xv, 332546068840nat, q()));
    let t0 = fq_square(&t0);
    proof { lemma_pow_m_mul(xv, 332546068840nat, 332546068840nat, q()); }
    assert(fq(t0) == pow_m(xv, 665092137680nat, q()));
    let t0 = fq_square(&t0);
    proof { lemma_pow_m_mul(xv, 665092137680nat, 665092137680nat, q()); }
    assert(fq(t0) == pow_m(xv, 1330184275360nat, q()));
    let t0 = fq_square(&t0);
    proof { lemma_pow_m_mul(xv, 1330184275360nat, 1330184275360nat, q()); }
    assert(fq(t0) == pow_m(xv, 2660368550720nat, q()));
    let t0 = fq_square(&t0);
    proof { lemma_pow_m_mul(xv, 2660368550720nat, 2660368550720nat, q()); }
    assert(fq(t0) == pow_m(xv, 5320737101440nat, q()));
    let t0 = fq_square(&t0);
    proof { lemma_pow_m_mul(xv, 5320737101440nat, 5320737101440nat, q()); }
    assert(fq(t0) == pow_m(xv, 10641474202880nat, q()));
    let t0 = fq_square(&t0);
    proof { lemma_pow_m_mul(xv, 10641474202880nat, 10641474202880nat, q()); }
    assert(fq(t0) == pow_m(xv, 21282948405760nat, q()));
    let t0 = fq_square(&t0);
    proof { lemma_pow_m_mul(xv, 21282948405760nat, 21282948405760nat, q()); }
    assert(fq(t0) == pow_m(xv, 42565896811520nat, q()));
    let t0 = fq_square(&t0);
    proof { lemma_pow_m_mul(xv, 42565896811520nat, 42565896811520nat, q()); }
    assert(fq(t0) == pow_m(xv, 85131793623040nat, q()));
    let t0 = fq_square(&t0);
    proof { lemma_pow_m_mul(xv, 85131793623040nat, 85131793623040nat, q()); }
    assert(fq(t0) == pow_m(xv, 170263587246080nat, q()));
    let t0 = fq_square(&t0);
    proof { lemma_pow_m_mul(xv, 170263587246080nat, 170263587246080nat, q()); }
    assert(fq(t0) == pow_m(xv, 340527174492160nat, q()));
    let t0 = fq_mul(&t0, &ts[18]);
    proof { lemma_pow_m_mul(xv, 340527174492160nat, 317nat, q()); }
    assert(fq(t0) == pow_m(xv, 340527174492477nat, q()));
    let t0 = fq_square(&t0);
    proof { lemma_pow_m_mul(xv, 340527174492477nat, 340527174492477nat, q()); }
    assert(fq(t0) == pow_m(xv, 681054348984954nat, q()));
    let t0 = fq_square(&t0);
    proof { lemma_pow_m_mul(xv, 681054348984954nat, 681054348984954nat, q()); }
    assert(fq(t0) == pow_m(xv, 1362108697969908nat, q()));
    let t0 = fq_square(&t0);
    proof { lemma_pow_m_mul(xv, 1362108697969908nat, 1362108697969908nat, q()); }
    assert(fq(t0) == pow_m(xv, 2724217395939816nat, q()));
    let t0 = fq_square(&t0);
    proof { lemma_pow_m_mul(xv, 2724217395939816nat, 2724217395939816nat, q()); }
    assert(fq(t0) == pow_m(xv, 5448434791879632nat, q()));
    let t0 = fq_square(&t0);
    proof { lemma_pow_m_mul(xv, 5448434791879632nat, 5448434791879632nat, q()); }
    assert(fq(t0) == pow_m(xv, 10896869583759264nat, q()));
    let t0 = fq_square(&t0);
    proof { lemma_pow_m_mul(xv, 10896869583759264nat, 10896869583759264nat, q()); }
    assert(fq(t0) == pow_m(xv, 21793739167518528nat, q()));
    let t0 = fq_square(&t0);
    proof { lemma_pow_m_mul(xv, 21793739167518528nat, 21793739167518528nat, q()); }
    assert(fq(t0) == pow_m(xv, 43587478335037056nat, q()));
    let t0 = fq_square(&t0);
    proof { lemma_pow_m_mul(xv, 43587478335037056nat, 43587478335037056nat, q()); }
    assert(fq(t0) == pow_m(xv, 87174956670074112nat, q()));
    let t0 = fq_square(&t0);
    proof { lemma_pow_m_mul(xv, 87174956670074112nat, 87174956670074112nat, q()); }
    assert(fq(t0) == pow_m(xv, 174349913340148224nat, q()));
    let t0 = fq_mul(&t0, &ts[4]);
    proof { lemma_pow_m_mul(xv, 174349913340148224nat, 309nat, q()); }
    assert(fq(t0) == pow_m(xv, 174349913340148533nat, q()));
    t0
}

/// One stage of the long scan of the chain.
fn chain_scan_2(x: &Felt, t0: Felt, ts: &Vec<Felt>) -> (r: Felt)
    requires
        ts.len() == 21,
        fq(t0) == pow_m(fq(*x), 174349913340148533nat, q()),
        fq(ts[3]) == pow_m(fq(*x), 31nat, q()),
        fq(ts[11]) == pow_m(fq(*x), 207nat, q()),
        fq(ts[15]) == pow_m(fq(*x), 181nat, q()),
        fq(ts[16]) == pow_m(fq(*x), 441nat, q()),
        fq(ts[17]) == pow_m(fq(*x), 73nat, q()),
    ensures
        fq(r) == pow_m(fq(*x), 98150275593846400515536586738928nat, q()),
{
    let ghost xv: int = fq(*x);
    let t0 = fq_square(&t0);
    proof { lemma_pow_m_mul(xv, 174349913340148533nat, 174349913340148533nat, q()); }
    assert(fq(t0) == pow_m(xv, 348699826680297066nat, q()));
    let t0 = fq_square(&t0);
    proof { lemma_pow_m_mul(xv, 348699826680297066nat, 348699826680297066nat, q()); }
    assert(fq(t0) == pow_m(xv, 697399653360594132nat, q()));
    let t0 = fq_square(&t0);
    proof { lemma_pow_m_mul(xv, 697399653360594132nat, 697399653360594132nat, q()); }
    assert(fq(t0) == pow_m(xv, 1394799306721188264nat, q()));
    let t0 = fq_square(&t0);
    proof { lemma_pow_m_mul(xv, 1394799306721188264nat, 1394799306721188264nat, q()); }
    assert(fq(t0) == pow_m(xv, 2789598613442376528nat, q()));
    let t0 = fq_square(&t0);
    proof { lemma_pow_m_mul(xv, 2789598613442376528nat, 2789598613442376528nat, q()); }
    assert(fq(t0) == pow_m(xv, 5579197226884753056nat, q()));
    let t0 = fq_square(&t0);
    proof { lemma_pow_m_mul(xv, 5579197226884753056nat, 5579197226884753056nat, q()); }
    assert(fq(t0) == pow_m(xv, 11158394453769506112nat, q()));
    let t0 = fq_square(&t0);
    proof { lemma_pow_m_mul(xv, 11158394453769506112nat, 11158394453769506112nat, q()); }
    assert(fq(t0) == pow_m(xv, 22316788907539012224nat, q()));
    let t0 = fq_square(&t0);
    proof { lemma_pow_m_mul(xv, 22316788907539012224nat, 22316788907539012224nat, q()); }
    assert(fq(t0) == pow_m(xv, 44633577815078024448nat, q()));
    let t0 = fq_mul(&t0, &ts[17]);
    proof { lemma_pow_m_mul(xv, 44633577815078024448nat, 73nat, q()); }
    assert(fq(t0) == pow_m(xv, 44633577815078024521nat, q()));
    let t0 = fq_square(&t0);
    proof { lemma_pow_m_mul(xv, 44633577815078024521nat, 44633577815078024521nat, q()); }
    assert(fq(t0) == pow_m(xv, 89267155630156049042nat, q()));
    let t0 = fq_square(&t0);
    proof { lemma_pow_m_mul(xv, 89267155630156049042nat, 89267155630156049042nat, q()); }
    assert(fq(t0) == pow_m(xv, 178534311260312098084nat, q()));
    let t0 = fq_square(&t0);
    proof { lemma_pow_m_mul(xv, 178534311260312098084nat, 178534311260312098084nat, q()); }
    assert(fq(t0) == pow_m(xv, 357068622520624196168nat, q()));
    let t0 = fq_square(&t0);
    proof { lemma_pow_m_mul(xv, 357068622520624196168nat, 357068622520624196168nat, q()); }
    assert(fq(t0) == pow_m(xv, 714137245041248392336nat, q()));
    let t0 = fq_square(&t0);
    proof { lemma_pow_m_mul(xv, 714137245041248392336nat, 714137245041248392336nat, q()); }
    assert(fq(t0) == pow_m(xv, 1428274490082496784672nat, q()));
    let t0 = fq_square(&t0);
    proof { lemma_pow_m_mul(xv, 1428274490082496784672nat, 1428274490082496784672nat, q()); }
    assert(fq(t0) == pow_m(xv, 2856548980164993569344nat, q()));
    let t0 = fq_square(&t0);
    proof { lemma_pow_m_mul(xv, 2856548980164993569344nat, 2856548980164993569344nat, q()); }
    assert(fq(t0) == pow_m(xv, 5713097960329987138688nat, q()));
    let t0 = fq_square(&t0);
    proof { lemma_pow_m_mul(xv, 5713097960329987138688nat, 5713097960329987138688nat, q()); }
    assert(fq(t0) == pow_m(xv, 11426195920659974277376nat, q()));
    let t0 = fq_square(&t0);
    proof { lemma_pow_m_mul(xv, 11426195920659974277376nat, 11426195920659974277376nat, q()); }
    assert(fq(t0) == pow_m(xv, 22852391841319948554752nat, q()));
    let t0 = fq_square(&t0);
    proof { lemma_pow_m_mul(xv, 22852391841319948554752nat, 22852391841319948554752nat, q()); }
    assert(fq(t0) == pow_m(xv, 45704783682639897109504nat, q()));
    let t0 = fq_square(&t0);
    proof { lemma_pow_m_mul(xv, 45704783682639897109504nat, 45704783682639897109504nat, q()); }
    assert(fq(t0) == pow_m(xv, 91409567365279794219008nat, q()));
    let t0 = fq_mul(&t0, &ts[16]);
    proof { lemma_pow_m_mul(xv, 91409567365279794219008nat, 441nat, q()); }
    assert(fq(t0) == pow_m(xv, 91409567365279794219449nat, q()));
    let t0 = fq_square(&t0);
    proof { lemma_pow_m_mul(xv, 91409567365279794219449nat, 91409567365279794219449nat, q()); }
    assert(fq(t0) == pow_m(xv, 182819134730559588438898nat, q()));
    let t0 = fq_square(&t0);
    proof { lemma_pow_m_mul(xv, 182819134730559588438898nat, 182819134730559588438898nat, q()); }
    assert(fq(t0) == pow_m(xv, 365638269461119176877796nat, q()));
    let t0 = fq_square(&t0);
    proof { lemma_pow_m_mul(xv, 365638269461119176877796nat, 365638269461119176877796nat, q()); }
    assert(fq(t0) == pow_m(xv, 731276538922238353755592nat, q()));
    let t0 = fq_square(&t0);
    proof { lemma_pow_m_mul(xv, 731276538922238353755592nat, 731276538922238353755592nat, q()); }
    assert(fq(t0) == pow_m(xv, 1462553077844476707511184nat, q()));
    let t0 = fq_square(&t0);
    proof { lemma_pow_m_mul(xv, 1462553077844476707511184nat, 1462553077844476707511184nat, q()); }
    assert(fq(t0) == pow_m(xv, 2925106155688953415022368nat, q()));
    let t0 = fq_square(&t0);
    proof { lemma_pow_m_mul(xv, 2925106155688953415022368nat, 2925106155688953415022368nat, q()); }
    assert(fq(t0) == pow_m(xv, 5850212311377906830044736nat, q()));
    let t0 = fq_square(&t0);
    proof { lemma_pow_m_mul(xv, 5850212311377906830044736nat, 5850212311377906830044736nat, q()); }
    assert(fq(t0) == pow_m(xv, 11700424622755813660089472nat, q()));
    let t0 = fq_square(&t0);
    proof { lemma_pow_m_mul(xv, 11700424622755813660089472nat, 11700424622755813660089472nat, q()); }
    assert(fq(t0) == pow_m(xv, 23400849245511627320178944nat, q()));
    let t0 = fq_mul(&t0, &ts[15]);
    proof { lemma_pow_m_mul(xv, 23400849245511627320178944nat, 181nat, q()); }
    assert(fq(t0) == pow_m(xv, 23400849245511627320179125nat, q()));
    let t0 = fq_square(&t0);
    proof { lemma_pow_m_mul(xv, 23400849245511627320179125nat, 23400849245511627320179125nat, q()); }
    assert(fq(t0) == pow_m(xv, 46801698491023254640358250nat, q()));
    let t0 = fq_square(&t0);
    proof { lemma_pow_m_mul(xv, 46801698491023254640358250nat, 46801698491023254640358250nat, q()); }
    assert(fq(t0) == pow_m(xv, 93603396982046509280716500nat, q()));
    let t0 = fq_square(&t0);
    proof { lemma_pow_m_mul(xv, 93603396982046509280716500nat, 93603396982046509280716500nat, q()); }
    assert(fq(t0) == pow_m(xv, 187206793964093018561433000nat, q()));
    let t0 = fq_square(&t0);
    proof { lemma_pow_m_mul(xv, 187206793964093018561433000nat, 187206793964093018561433000nat, q()); }
    assert(fq(t0) == pow_m(xv, 374413587928186037122866000nat, q()));
    let t0 = fq_square(&t0);
    proof { lemma_pow_m_mul(xv, 374413587928186037122866000nat, 374413587928186037122866000nat, q()); }
    assert(fq(t0) == pow_m(xv, 748827175856372074245732000nat, q()));
    let t0 = fq_square(&t0);
    proof { lemma_pow_m_mul(xv, 748827175856372074245732000nat, 748827175856372074245732000nat, q()); }
    assert(fq(t0) == pow_m(xv, 1497654351712744148491464000nat, q()));
    let t0 = fq_mul(&t0, &ts[3]);
    proof { lemma_pow_m_mul(xv, 1497654351712744148491464000nat, 31nat, q()); }
    assert(fq(t0) == pow_m(xv, 1497654351712744148491464031nat, q()));
    let t0 = fq_square(&t0);
    proof { lemma_pow_m_mul(xv, 1497654351712744148491464031nat, 1497654351712744148491464031nat, q()); }
    assert(fq(t0) == pow_m(xv, 2995308703425488296982928062nat, q()));
    let t0 = fq_square(&t0);
    proof { lemma_pow_m_mul(xv, 2995308703425488296982928062nat, 2995308703425488296982928062nat, q()); }
    assert(fq(t0) == pow_m(xv, 5990617406850976593965856124nat, q()));
    let t0 = fq_square(&t0);
    proof { lemma_pow_m_mul(xv, 5990617406850976593965856124nat, 5990617406850976593965856124nat, q()); }
    assert(fq(t0) == pow_m(xv, 11981234813701953187931712248nat, q()));
    let t0 = fq_square(&t0);
    proof { lemma_pow_m_mul(xv, 11981234813701953187931712248nat, 11981234813701953187931712248nat, q()); }
    assert(fq(t0) == pow_m(xv, 23962469627403906375863424496nat, q()));
    let t0 = fq_square(&t0);
    proof { lemma_pow_m_mul(xv, 23962469627403906375863424496nat, 23962469627403906375863424496nat, q()); }
    assert(fq(t0) == pow_m(xv, 47924939254807812751726848992nat, q()));
    let t0 = fq_square(&t0);
    proof { lemma_pow_m_mul(xv, 47924939254807812751726848992nat, 47924939254807812751726848992nat, q()); }
    assert(fq(t0) == pow_m(xv, 95849878509615625503453697984nat, q()));
    let t0 = fq_square(&t0);
    proof { lemma_pow_m_mul(xv, 95849878509615625503453697984nat, 95849878509615625503453697984nat, q()); }
    assert(fq(t0) == pow_m(xv, 191699757019231251006907395968nat, q()));
    let t0 = fq_square(&t0);
    proof { lemma_pow_m_mul(xv, 191699757019231251006907395968nat, 191699757019231251006907395968nat, q()); }
    assert(fq(t0) == pow_m(xv, 383399514038462502013814791936nat, q()));
    let t0 = fq_square(&t0);
    proof { lemma_pow_m_mul(xv, 383399514038462502013814791936nat, 383399514038462502013814791936nat, q()); }
    assert(fq(t0) == pow_m(xv, 766799028076925004027629583872nat, q()));
    let t0 = fq_square(&t0);
    proof { lemma_pow_m_mul(xv, 766799028076925004027629583872nat, 766799028076925004027629583872nat, q()); }
    assert(fq(t0) == pow_m(xv, 1533598056153850008055259167744nat, q()));
    let t0 = fq_square(&t0);
    proof { lemma_pow_m_mul(xv, 1533598056153850008055259167744nat, 1533598056153850008055259167744nat, q()); }
    assert(fq(t0) == pow_m(xv, 3067196112307700016110518335488nat, q()));
    let t0 = fq_square(&t0);
    proof { lemma_pow_m_mul(xv, 3067196112307700016110518335488nat, 3067196112307700016110518335488nat, q()); }
    assert(fq(t0) == pow_m(xv, 6134392224615400032221036670976nat, q()));
    let t0 = fq_mul(&t0, &ts[11]);
    proof { lemma_pow_m_mul(xv, 6134392224615400032221036670976nat, 207nat, q()); }
    assert(fq(t0) == pow_m(xv, 6134392224615400032221036671183nat, q()));
    let t0 = fq_square(&t0);
    proof { lemma_pow_m_mul(xv, 6134392224615400032221036671183nat, 6134392224615400032221036671183nat, q()); }
    assert(fq(t0) == pow_m(xv, 12268784449230800064442073342366nat, q()));
    let t0 = fq_square(&t0);
    proof { lemma_pow_m_mul(xv, 12268784449230800064442073342366nat, 12268784449230800064442073342366nat, q()); }
    assert(fq(t0) == pow_m(xv, 24537568898461600128884146684732nat, q()));
    let t0 = fq_square(&t0);
    proof { lemma_pow_m_mul(xv, 24537568898461600128884146684732nat, 24537568898461600128884146684732nat, q()); }
    assert(fq(t0) == pow_m(xv, 49075137796923200257768293369464nat, q()));
    let t0 = fq_square(&t0);
    proof { lemma_pow_m_mul(xv, 49075137796923200257768293369464nat, 49075137796923200257768293369464nat, q()); }
    assert(fq(t0) == pow_m(xv, 98150275593846400515536586738928nat, q()));
    t0
}

/// One stage of the long scan of the chain.
fn chain_scan_3(x: &Felt, t0: Felt, ts: &Vec<Felt>) -> (r: Felt)
    requires
        ts.len() == 21,
        fq(t0) == pow_m(fq(*x), 98150275593846400515536586738928nat, q()),
        fq(ts[10]) == pow_m(fq(*x), 135nat, q()),
        fq(ts[11]) == pow_m(fq(*x), 207nat, q()),
        fq(ts[12]) == pow_m(fq(*x), 491nat, q()),
        fq(ts[13]) == pow_m(fq(*x), 209nat, q()),
        fq(ts[14]) == pow_m(fq(*x), 213nat, q()),
    ensures
        fq(r) == pow_m(fq(*x), 55253693073844767170435111968463568469180932636nat, q()),
{
    let ghost xv: int = fq(*x);
    let t0 = fq_square(&t0);
    proof { lemma_pow_m_mul(xv, 98150275593846400515536586738928nat, 98150275593846400515536586738928nat, q()); }
    assert(fq(t0) == pow_m(xv, 196300551187692801031073173477856nat, q()));
    let t0 = fq_square(&t0);
    proof { lemma_pow_m_mul(xv, 196300551187692801031073173477856nat, 196300551187692801031073173477856nat, q()); }
    assert(fq(t0) == pow_m(xv, 392601102375385602062146346955712nat, q()));
    let t0 = fq_square(&t0);
    proof { lemma_pow_m_mul(xv, 392601102375385602062146346955712nat, 392601102375385602062146346955712nat, q()); }
    assert(fq(t0) == pow_m(xv, 785202204750771204124292693911424nat, q()));
    let t0 = fq_square(&t0);
    proof { lemma_pow_m_mul(xv, 785202204750771204124292693911424nat, 785202204750771204124292693911424nat, q()); }
    assert(fq(t0) == pow_m(xv, 1570404409501542408248585387822848nat, q()));
    let t0 = fq_square(&t0);
    proof { lemma_pow_m_mul(xv, 1570404409501542408248585387822848nat, 1570404409501542408248585387822848nat, q()); }
    assert(fq(t0) == pow_m(xv, 3140808819003084816497170775645696nat, q()));
    let t0 = fq_square(&t0);
    proof { lemma_pow_m_mul(xv, 3140808819003084816497170775645696nat, 3140808819003084816497170775645696nat, q()); }
    assert(fq(t0) == pow_m(xv, 6281617638006169632994341551291392nat, q()));
    let t0 = fq_mul(&t0, &ts[14]);
    proof { lemma_pow_m_mul(xv, 6281617638006169632994341551291392nat, 213nat, q()); }
    assert(fq(t0) == pow_m(xv, 6281617638006169632994341551291605nat, q()));
    let t0 = fq_square(&t0);
    proof { lemma_pow_m_mul(xv, 6281617638006169632994341551291605nat, 6281617638006169632994341551291605nat, q()); }
    assert(fq(t0) == pow_m(xv, 12563235276012339265988683102583210nat, q()));
    let t0 = fq_square(&t0);
    proof { lemma_pow_m_mul(xv, 12563235276012339265988683102583210nat, 12563235276012339265988683102583210nat, q()); }
    assert(fq(t0) == pow_m(xv, 25126470552024678531977366205166420nat, q()));
    let t0 = fq_square(&t0);
    proof { lemma_pow_m_mul(xv, 25126470552024678531977366205166420nat, 25126470552024678531977366205166420nat, q()); }
    assert(fq(t0) == pow_m(xv, 50252941104049357063954732410332840nat, q()));
    let t0 = fq_square(&t0);
    proof { lemma_pow_m_mul(xv, 50252941104049357063954732410332840nat, 50252941104049357063954732410332840nat, q()); }
    assert(fq(t0) == pow_m(xv, 100505882208098714127909464820665680nat, q()));
    let t0 = fq_square(&t0);
    proof { lemma_pow_m_mul(xv, 100505882208098714127909464820665680nat, 100505882208098714127909464820665680nat, q()); }
    assert(fq(t0) == pow_m(xv, 201011764416197428255818929641331360nat, q()));
    let t0 = fq_square(&t0);
    proof { lemma_pow_m_mul(xv, 201011764416197428255818929641331360nat, 201011764416197428255818929641331360nat, q()); }
    assert(fq(t0) == pow_m(xv, 402023528832394856511637859282662720nat, q()));
    let t0 = fq_square(&t0);
    proof { lemma_pow_m_mul(xv, 402023528832394856511637859282662720nat, 402023528832394856511637859282662720nat, q()); }
    assert(fq(t0) == pow_m(xv, 804047057664789713023275718565325440nat, q()));
    let t0 = fq_square(&t0);
    proof { lemma_pow_m_mul(xv, 804047057664789713023275718565325440nat, 804047057664789713023275718565325440nat, q()); }
    assert(fq(t0) == pow_m(xv, 1608094115329579426046551437130650880nat, q()));
    let t0 = fq_square(&t0);
    proof { lemma_pow_m_mul(xv, 1608094115329579426046551437130650880nat, 1608094115329579426046551437130650880nat, q()); }
    assert(fq(t0) == pow_m(xv, 3216188230659158852093102874261301760nat, q()));
    let t0 = fq_mul(&t0, &ts[13]);
    proof { lemma_pow_m_mul(xv, 3216188230659158852093102874261301760nat, 209nat, q()); }
    assert(fq(t0) == pow_m(xv, 3216188230659158852093102874261301969nat, q()));
    let t0 = fq_square(&t0);
    proof { lemma_pow_m_mul(xv, 3216188230659158852093102874261301969nat, 3216188230659158852093102874261301969nat, q()); }
    assert(fq(t0) == pow_m(xv, 6432376461318317704186205748522603938nat, q()));
    let t0 = fq_square(&t0);
    proof { lemma_pow_m_mul(xv, 6432376461318317704186205748522603938nat, 6432376461318317704186205748522603938nat, q()); }
    assert(fq(t0) == pow_m(xv, 12864752922636635408372411497045207876nat, q()));
    let t0 = fq_square(&t0);
    proof { lemma_pow_m_mul(xv, 12864752922636635408372411497045207876nat, 12864752922636635408372411497045207876nat, q()); }
    assert(fq(t0) == pow_m(xv, 25729505845273270816744822994090415752nat, q()));
    let t0 = fq_square(&t0);
    proof { lemma_pow_m_mul(xv, 25729505845273270816744822994090415752nat, 25729505845273270816744822994090415752nat, q()); }
    assert(fq(t0) == pow_m(xv, 51459011690546541633489645988180831504nat, q()));
    let t0 = fq_square(&t0);
    proof { lemma_pow_m_mul(xv, 51459011690546541633489645988180831504nat, 51459011690546541633489645988180831504nat, q()); }
    assert(fq(t0) == pow_m(xv, 102918023381093083266979291976361663008nat, q()));
    let t0 = fq_square(&t0);
    proof { lemma_pow_m_mul(xv, 102918023381093083266979291976361663008nat, 102918023381093083266979291976361663008nat, q()); }
    assert(fq(t0) == pow_m(xv, 205836046762186166533958583952723326016nat, q()));
    let t0 = fq_square(&t0);
    proof { lemma_pow_m_mul(xv, 205836046762186166533958583952723326016nat, 205836046762186166533958583952723326016nat, q()); }
    assert(fq(t0) == pow_m(xv, 411672093524372333067917167905446652032nat, q()));
    let t0 = fq_square(&t0);
    proof { lemma_pow_m_mul(xv, 411672093524372333067917167905446652032nat, 411672093524372333067917167905446652032nat, q()); }
    assert(fq(t0) == pow_m(xv, 823344187048744666135834335810893304064nat, q()));
    let t0 = fq_square(&t0);
    proof { lemma_pow_m_mul(xv, 823344187048744666135834335810893304064nat, 823344187048744666135834335810893304064nat, q()); }
    assert(fq(t0) == pow_m(xv, 1646688374097489332271668671621786608128nat, q()));
    let t0 = fq_square(&t0);
    proof { lemma_pow_m_mul(xv, 1646688374097489332271668671621786608128nat, 1646688374097489332271668671621786608128nat, q()); }
    assert(fq(t0) == pow_m(xv, 3293376748194978664543337343243573216256nat, q()));
    let t0 = fq_mul(&t0, &ts[12]);
    proof { lemma_pow_m_mul(xv, 3293376748194978664543337343243573216256nat, 491nat, q()); }
    assert(fq(t0) == pow_m(xv, 3293376748194978664543337343243573216747nat, q()));
    let t0 = fq_square(&t0);
    proof { lemma_pow_m_mul(xv, 3293376748194978664543337343243573216747nat, 3293376748194978664543337343243573216747nat, q()); }
    assert(fq(t0) == pow_m(xv, 6586753496389957329086674686487146433494nat, q()));
    let t0 = fq_square(&t0);
    proof { lemma_pow_m_mul(xv, 6586753496389957329086674686487146433494nat, 6586753496389957329086674686487146433494nat, q()); }
    assert(fq(t0) == pow_m(xv, 13173506992779914658173349372974292866988nat, q()));
    let t0 = fq_square(&t0);
    proof { lemma_pow_m_mul(xv, 13173506992779914658173349372974292866988nat, 13173506992779914658173349372974292866988nat, q()); }
    assert(fq(t0) == pow_m(xv, 26347013985559829316346698745948585733976nat, q()));
    let t0 = fq_square(&t0);
    proof { lemma_pow_m_mul(xv, 26347013985559829316346698745948585733976nat, 26347013985559829316346698745948585733976nat, q()); }
    assert(fq(t0) == pow_m(xv, 52694027971119658632693397491897171467952nat, q()));
    let t0 = fq_square(&t0);
    proof { lemma_pow_m_mul(xv, 52694027971119658632693397491897171467952nat, 52694027971119658632693397491897171467952nat, q()); }
    assert(fq(t0) == pow_m(xv, 105388055942239317265386794983794342935904nat, q()));
    let t0 = fq_square(&t0);
    proof { lemma_pow_m_mul(xv, 105388055942239317265386794983794342935904nat, 105388055942239317265386794983794342935904nat, q()); }
    assert(fq(t0) == pow_m(xv, 210776111884478634530773589967588685871808nat, q()));
    let t0 = fq_square(&t0);
    proof { lemma_pow_m_mul(xv, 210776111884478634530773589967588685871808nat, 210776111884478634530773589967588685871808nat, q()); }
    assert(fq(t0) == pow_m(xv, 421552223768957269061547179935177371743616nat, q()));
    let t0 = fq_square(&t0);
    proof { lemma_pow_m_mul(xv, 421552223768957269061547179935177371743616nat, 421552223768957269061547179935177371743616nat, q()); }
    assert(fq(t0) == pow_m(xv, 843104447537914538123094359870354743487232nat, q()));
    let t0 = fq_square(&t0);
    proof { lemma_pow_m_mul(xv, 843104447537914538123094359870354743487232nat, 843104447537914538123094359870354743487232nat, q()); }
    assert(fq(t0) == pow_m(xv, 1686208895075829076246188719740709486974464nat, q()));
    let t0 = fq_square(&t0);
    proof { lemma_pow_m_mul(xv, 1686208895075829076246188719740709486974464nat, 1686208895075829076246188719740709486974464nat, q()); }
    assert(fq(t0) == pow_m(xv, 3372417790151658152492377439481418973948928nat, q()));
    let t0 = fq_square(&t0);
    proof { lemma_pow_m_mul(xv, 3372417790151658152492377439481418973948928nat, 3372417790151658152492377439481418973948928nat, q()); }
    assert(fq(t0) == pow_m(xv, 6744835580303316304984754878962837947897856nat, q()));
    let t0 = fq_mul(&t0, &ts[11]);
    proof { lemma_pow_m_mul(xv, 6744835580303316304984754878962837947897856nat, 207nat, q()); }
    assert(fq(t0) == pow_m(xv, 6744835580303316304984754878962837947898063nat, q()));
    let t0 = fq_square(&t0);
    proof { lemma_pow_m_mul(xv, 6744835580303316304984754878962837947898063nat, 6744835580303316304984754878962837947898063nat, q()); }
    assert(fq(t0) == pow_m(xv, 13489671160606632609969509757925675895796126nat, q()));
    let t0 = fq_square(&t0);
    proof { lemma_pow_m_mul(xv, 13489671160606632609969509757925675895796126nat, 13489671160606632609969509757925675895796126nat, q()); }
    assert(fq(t0) == pow_m(xv, 26979342321213265219939019515851351791592252nat, q()));
    let t0 = fq_square(&t0);
    proof { lemma_pow_m_mul(xv, 26979342321213265219939019515851351791592252nat, 26979342321213265219939019515851351791592252nat, q()); }
    assert(fq(t0) == pow_m(xv, 53958684642426530439878039031702703583184504nat, q()));
    let t0 = fq_square(&t0);
    proof { lemma_pow_m_mul(xv, 53958684642426530439878039031702703583184504nat, 53958684642426530439878039031702703583184504nat, q()); }
    assert(fq(t0) == pow_m(xv, 107917369284853060879756078063405407166369008nat, q()));
    let t0 = fq_square(&t0);
    proof { lemma_pow_m_mul(xv, 107917369284853060879756078063405407166369008nat, 107917369284853060879756078063405407166369008nat, q()); }
    assert(fq(t0) == pow_m(xv, 215834738569706121759512156126810814332738016nat, q()));
    let t0 = fq_square(&t0);
    proof { lemma_pow_m_mul(xv, 215834738569706121759512156126810814332738016nat, 215834738569706121759512156126810814332738016nat, q()); }
    assert(fq(t0) == pow_m(xv, 431669477139412243519024312253621628665476032nat, q()));
    let t0 = fq_square(&t0);
    proof { lemma_pow_m_mul(xv, 431669477139412243519024312253621628665476032nat, 431669477139412243519024312253621628665476032nat, q()); }
    assert(fq(t0) == pow_m(xv, 863338954278824487038048624507243257330952064nat, q()));
    let t0 = fq_square(&t0);
    proof { lemma_pow_m_mul(xv, 863338954278824487038048624507243257330952064nat, 863338954278824487038048624507243257330952064nat, q()); }
    assert(fq(t0) == pow_m(xv, 1726677908557648974076097249014486514661904128nat, q()));
    let t0 = fq_square(&t0);
    proof { lemma_pow_m_mul(xv, 1726677908557648974076097249014486514661904128nat, 1726677908557648974076097249014486514661904128nat, q()); }
    assert(fq(t0) == pow_m(xv, 3453355817115297948152194498028973029323808256nat, q()));
    let t0 = fq_square(&t0);
    proof { lemma_pow_m_mul(xv, 3453355817115297948152194498028973029323808256nat, 3453355817115297948152194498028973029323808256nat, q()); }
    assert(fq(t0) == pow_m(xv, 6906711634230595896304388996057946058647616512nat, q()));
    let t0 = fq_square(&t0);
    proof { lemma_pow_m_mul(xv, 6906711634230595896304388996057946058647616512nat, 6906711634230595896304388996057946058647616512nat, q()); }
    assert(fq(t0) == pow_m(xv, 13813423268461191792608777992115892117295233024nat, q()));
    let t0 = fq_mul(&t0, &ts[10]);
    proof { lemma_pow_m_mul(xv, 13813423268461191792608777992115892117295233024nat, 135nat, q()); }
    assert(fq(t0) == pow_m(xv, 13813423268461191792608777992115892117295233159nat, q()));
    let t0 = fq_square(&t0);
    proof { lemma_pow_m_mul(xv, 13813423268461191792608777992115892117295233159nat, 13813423268461191792608777992115892117295233159nat, q()); }
    assert(fq(t0) == pow_m(xv, 27626846536922383585217555984231784234590466318nat, q()));
    let t0 = fq_square(&t0);
    proof { lemma_pow_m_mul(xv, 27626846536922383585217555984231784234590466318nat, 27626846536922383585217555984231784234590466318nat, q()); }
    assert(fq(t0) == pow_m(xv, 55253693073844767170435111968463568469180932636nat, q()));
    t0
}

/// One stage of the long scan of the chain.
fn chain_scan_4(x: &Felt, t0: Felt, ts: &Vec<Felt>) -> (r: Felt)
    requires
        ts.len() == 21,
        fq(t0) == pow_m(fq(*x), 55253693073844767170435111968463568469180932636nat, q()),
        fq(ts[5]) == pow_m(fq(*x), 13nat, q()),
        fq(ts[6]) == pow_m(fq(*x), 67nat, q()),
        fq(ts[7]) == pow_m(fq(*x), 477nat, q()),
        fq(ts[8]) == pow_m(fq(*x), 455nat, q()),
        fq(ts[9]) == pow_m(fq(*x), 69nat, q()),
    ensures
        fq(r) == pow_m(fq(*x), 31105063942276381144220075818306661245595010935428808327698445nat, q()),
{
    let ghost xv: int = fq(*x);
    let t0 = fq_square(&t0);
    proof { lemma_pow_m_mul(xv, 55253693073844767170435111968463568469180932636nat, 55253693073844767170435111968463568469180932636nat, q()); }
    assert(fq(t0) == pow_m(xv, 110507386147689534340870223936927136938361865272nat, q()));
    let t0 = fq_square(&t0);
    proof { lemma_pow_m_mul(xv, 110507386147689534340870223936927136938361865272nat, 110507386147689534340870223936927136938361865272nat, q()); }
    assert(fq(t0) == pow_m(xv, 221014772295379068681740447873854273876723730544nat, q()));
    let t0 = fq_square(&t0);
    proof { lemma_pow_m_mul(xv, 221014772295379068681740447873854273876723730544nat, 221014772295379068681740447873854273876723730544nat, q()); }
    assert(fq(t0) == pow_m(xv, 442029544590758137363480895747708547753447461088nat, q()));
    let t0 = fq_square(&t0);
    proof { lemma_pow_m_mul(xv, 442029544590758137363480895747708547753447461088nat, 442029544590758137363480895747708547753447461088nat, q()); }
    assert(fq(t0) == pow_m(xv, 884059089181516274726961791495417095506894922176nat, q()));
    let t0 = fq_square(&t0);
    proof { lemma_pow_m_mul(xv, 884059089181516274726961791495417095506894922176nat, 884059089181516274726961791495417095506894922176nat, q()); }
    assert(fq(t0) == pow_m(xv, 1768118178363032549453923582990834191013789844352nat, q()));
    let t0 = fq_square(&t0);
    proof { lemma_pow_m_mul(xv, 1768118178363032549453923582990834191013789844352nat, 1768118178363032549453923582990834191013789844352nat, q()); }
    assert(fq(t0) == pow_m(xv, 3536236356726065098907847165981668382027579688704nat, q()));
    let t0 = fq_mul(&t0, &ts[9]);
    proof { lemma_pow_m_mul(xv, 3536236356726065098907847165981668382027579688704nat, 69nat, q()); }
    assert(fq(t0) == pow_m(xv, 3536236356726065098907847165981668382027579688773nat, q()));
    let t0 = fq_square(&t0);
    proof { lemma_pow_m_mul(xv, 3536236356726065098907847165981668382027579688773nat, 3536236356726065098907847165981668382027579688773nat, q()); }
    assert(fq(t0) == pow_m(xv, 7072472713452130197815694331963336764055159377546nat, q()));
    let t0 = fq_square(&t0);
    proof { lemma_pow_m_mul(xv, 7072472713452130197815694331963336764055159377546nat, 7072472713452130197815694331963336764055159377546nat, q()); }
    assert(fq(t0) == pow_m(xv, 14144945426904260395631388663926673528110318755092nat, q()));
    let t0 = fq_square(&t0);
    proof { lemma_pow_m_mul(xv, 14144945426904260395631388663926673528110318755092nat, 14144945426904260395631388663926673528110318755092nat, q()); }
    assert(fq(t0) == pow_m(xv, 28289890853808520791262777327853347056220637510184nat, q()));
    let t0 = fq_square(&t0);
    proof { lemma_pow_m_mul(xv, 28289890853808520791262777327853347056220637510184nat, 28289890853808520791262777327853347056220637510184nat, q()); }
    assert(fq(t0) == pow_m(xv, 56579781707617041582525554655706694112441275020368nat, q()));
    let t0 = fq_square(&t0);
    proof { lemma_pow_m_mul(xv, 56579781707617041582525554655706694112441275020368nat, 56579781707617041582525554655706694112441275020368nat, q()); }
    assert(fq(t0) == pow_m(xv, 113159563415234083165051109311413388224882550040736nat, q()));
    let t0 = fq_square(&t0);
    proof { lemma_pow_m_mul(xv, 113159563415234083165051109311413388224882550040736nat, 113159563415234083165051109311413388224882550040736nat, q()); }
    assert(fq(t0) == pow_m(xv, 226319126830468166330102218622826776449765100081472nat, q()));
    let t0 = fq_square(&t0);
    proof { lemma_pow_m_mul(xv, 226319126830468166330102218622826776449765100081472nat, 226319126830468166330102218622826776449765100081472nat, q()); }
    assert(fq(t0) == pow_m(xv, 452638253660936332660204437245653552899530200162944nat, q()));
    let t0 = fq_square(&t0);
    proof { lemma_pow_m_mul(xv, 452638253660936332660204437245653552899530200162944nat, 452638253660936332660204437245653552899530200162944nat, q()); }
    assert(fq(t0) == pow_m(xv, 905276507321872665320408874491307105799060400325888nat, q()));
    let t0 = fq_square(&t0);
    proof { lemma_pow_m_mul(xv, 905276507321872665320408874491307105799060400325888nat, 905276507321872665320408874491307105799060400325888nat, q()); }
    assert(fq(t0) == pow_m(xv, 1810553014643745330640817748982614211598120800651776nat, q()));
    let t0 = fq_square(&t0);
    proof { lemma_pow_m_mul(xv, 1810553014643745330640817748982614211598120800651776nat, 1810553014643745330640817748982614211598120800651776nat, q()); }
    assert(fq(t0) == pow_m(xv, 3621106029287490661281635497965228423196241601303552nat, q()));
    let t0 = fq_square(&t0);
    proof { lemma_pow_m_mul(xv, 3621106029287490661281635497965228423196241601303552nat, 3621106029287490661281635497965228423196241601303552nat, q()); }
    assert(fq(t0) == pow_m(xv, 7242212058574981322563270995930456846392483202607104nat, q()));
    let t0 = fq_mul(&t0, &ts[8]);
    proof { lemma_pow_m_mul(xv, 7242212058574981322563270995930456846392483202607104nat, 455nat, q()); }
    assert(fq(t0) == pow_m(xv, 7242212058574981322563270995930456846392483202607559nat, q()));
    let t0 = fq_square(&t0);
    proof { lemma_pow_m_mul(xv, 7242212058574981322563270995930456846392483202607559nat, 7242212058574981322563270995930456846392483202607559nat, q()); }
    assert(fq(t0) == pow_m(xv, 14484424117149962645126541991860913692784966405215118nat, q()));
    let t0 = fq_square(&t0);
    proof { lemma_pow_m_mul(xv, 14484424117149962645126541991860913692784966405215118nat, 14484424117149962645126541991860913692784966405215118nat, q()); }
    assert(fq(t0) == pow_m(xv, 28968848234299925290253083983721827385569932810430236nat, q()));
    let t0 = fq_square(&t0);
    proof { lemma_pow_m_mul(xv, 28968848234299925290253083983721827385569932810430236nat, 28968848234299925290253083983721827385569932810430236nat, q()); }
    assert(fq(t0) == pow_m(xv, 57937696468599850580506167967443654771139865620860472nat, q()));
    let t0 = fq_square(&t0);
    proof { lemma_pow_m_mul(xv, 57937696468599850580506167967443654771139865620860472nat, 57937696468599850580506167967443654771139865620860472nat, q()); }
    assert(fq(t0) == pow_m(xv, 115875392937199701161012335934887309542279731241720944nat, q()));
    let t0 = fq_square(&t0);
    proof { lemma_pow_m_mul(xv, 115875392937199701161012335934887309542279731241720944nat, 115875392937199701161012335934887309542279731241720944nat, q()); }
    assert(fq(t0) == pow_m(xv, 231750785874399402322024671869774619084559462483441888nat, q()));
    let t0 = fq_square(&t0);
    proof { lemma_pow_m_mul(xv, 231750785874399402322024671869774619084559462483441888nat, 231750785874399402322024671869774619084559462483441888nat, q()); }
    assert(fq(t0) == pow_m(xv, 463501571748798804644049343739549238169118924966883776nat, q()));
    let t0 = fq_square(&t0);
    proof { lemma_pow_m_mul(xv, 463501571748798804644049343739549238169118924966883776nat, 463501571748798804644049343739549238169118924966883776nat, q()); }
    assert(fq(t0) == pow_m(xv, 927003143497597609288098687479098476338237849933767552nat, q()));
    let t0 = fq_square(&t0);
    proof { lemma_pow_m_mul(xv, 927003143497597609288098687479098476338237849933767552nat, 927003143497597609288098687479098476338237849933767552nat, q()); }
    assert(fq(t0) == pow_m(xv, 1854006286995195218576197374958196952676475699867535104nat, q()));
    let t0 = fq_square(&t0);
    proof { lemma_pow_m_mul(xv, 1854006286995195218576197374958196952676475699867535104nat, 1854006286995195218576197374958196952676475699867535104nat, q()); }
    assert(fq(t0) == pow_m(xv, 3708012573990390437152394749916393905352951399735070208nat, q()));
    let t0 = fq_square(&t0);
    proof { lemma_pow_m_mul(xv, 3708012573990390437152394749916393905352951399735070208nat, 3708012573990390437152394749916393905352951399735070208nat, q()); }
    assert(fq(t0) == pow_m(xv, 7416025147980780874304789499832787810705902799470140416nat, q()));
    let t0 = fq_square(&t0);
    proof { lemma_pow_m_mul(xv, 7416025147980780874304789499832787810705902799470140416nat, 7416025147980780874304789499832787810705902799470140416nat, q()); }
    assert(fq(t0) == pow_m(xv, 14832050295961561748609578999665575621411805598940280832nat, q()));
    let t0 = fq_square(&t0);
    proof { lemma_pow_m_mul(xv, 14832050295961561748609578999665575621411805598940280832nat, 14832050295961561748609578999665575621411805598940280832nat, q()); }
    assert(fq(t0) == pow_m(xv, 29664100591923123497219157999331151242823611197880561664nat, q()));
    let t0 = fq_mul(&t0, &ts[7]);
    proof { lemma_pow_m_mul(xv, 29664100591923123497219157999331151242823611197880561664nat, 477nat, q()); }
    assert(fq(t0) == pow_m(xv, 29664100591923123497219157999331151242823611197880562141nat, q()));
    let t0 = fq_square(&t0);
    proof { lemma_pow_m_mul(xv, 29664100591923123497219157999331151242823611197880562141nat, 29664100591923123497219157999331151242823611197880562141nat, q()); }
    assert(fq(t0) == pow_m(xv, 59328201183846246994438315998662302485647222395761124282nat, q()));
    let t0 = fq_square(&t0);
    proof { lemma_pow_m_mul(xv, 59328201183846246994438315998662302485647222395761124282nat, 59328201183846246994438315998662302485647222395761124282nat, q()); }
    assert(fq(t0) == pow_m(xv, 118656402367692493988876631997324604971294444791522248564nat, q()));
    let t0 = fq_square(&t0);
    proof { lemma_pow_m_mul(xv, 118656402367692493988876631997324604971294444791522248564nat, 118656402367692493988876631997324604971294444791522248564nat, q()); }
    assert(fq(t0) == pow_m(xv, 237312804735384987977753263994649209942588889583044497128nat, q()));
    let t0 = fq_square(&t0);
    proof { lemma_pow_m_mul(xv, 237312804735384987977753263994649209942588889583044497128nat, 237312804735384987977753263994649209942588889583044497128nat, q()); }
    assert(fq(t0) == pow_m(xv, 474625609470769975955506527989298419885177779166088994256nat, q()));
    let t0 = fq_square(&t0);
    proof { lemma_pow_m_mul(xv, 474625609470769975955506527989298419885177779166088994256nat, 474625609470769975955506527989298419885177779166088994256nat, q()); }
    assert(fq(t0) == pow_m(xv, 949251218941539951911013055978596839770355558332177988512nat, q()));
    let t0 = fq_square(&t0);
    proof { lemma_pow_m_mul(xv, 949251218941539951911013055978596839770355558332177988512nat, 949251218941539951911013055978596839770355558332177988512nat, q()); }
    assert(fq(t0) == pow_m(xv, 1898502437883079903822026111957193679540711116664355977024nat, q()));
    let t0 = fq_square(&t0);
    proof { lemma_pow_m_mul(xv, 1898502437883079903822026111957193679540711116664355977024nat, 1898502437883079903822026111957193679540711116664355977024nat, q()); }
    assert(fq(t0) == pow_m(xv, 3797004875766159807644052223914387359081422233328711954048nat, q()));
    let t0 = fq_square(&t0);
    proof { lemma_pow_m_mul(xv, 3797004875766159807644052223914387359081422233328711954048nat, 3797004875766159807644052223914387359081422233328711954048nat, q()); }
    assert(fq(t0) == pow_m(xv, 7594009751532319615288104447828774718162844466657423908096nat, q()));
    let t0 = fq_square(&t0);
    proof { lemma_pow_m_mul(xv, 7594009751532319615288104447828774718162844466657423908096nat, 7594009751532319615288104447828774718162844466657423908096nat, q()); }
    assert(fq(t0) == pow_m(xv, 15188019503064639230576208895657549436325688933314847816192nat, q()));
    let t0 = fq_mul(&t0, &ts[6]);
    proof { lemma_pow_m_mul(xv, 15188019503064639230576208895657549436325688933314847816192nat, 67nat, q()); }
    assert(fq(t0) == pow_m(xv, 15188019503064639230576208895657549436325688933314847816259nat, q()));
    let t0 = fq_square(&t0);
    proof { lemma_pow_m_mul(xv, 15188019503064639230576208895657549436325688933314847816259nat, 15188019503064639230576208895657549436325688933314847816259nat, q()); }
    assert(fq(t0) == pow_m(xv, 30376039006129278461152417791315098872651377866629695632518nat, q()));
    let t0 = fq_square(&t0);
    proof { lemma_pow_m_mul(xv, 30376039006129278461152417791315098872651377866629695632518nat, 30376039006129278461152417791315098872651377866629695632518nat, q()); }
    assert(fq(t0) == pow_m(xv, 60752078012258556922304835582630197745302755733259391265036nat, q()));
    let t0 = fq_square(&t0);
    proof { lemma_pow_m_mul(xv, 60752078012258556922304835582630197745302755733259391265036nat, 60752078012258556922304835582630197745302755733259391265036nat, q()); }
    assert(fq(t0) == pow_m(xv, 121504156024517113844609671165260395490605511466518782530072nat, q()));
    let t0 = fq_square(&t0);
    proof { lemma_pow_m_mul(xv, 121504156024517113844609671165260395490605511466518782530072nat, 121504156024517113844609671165260395490605511466518782530072nat, q()); }
    assert(fq(t0) == pow_m(xv, 243008312049034227689219342330520790981211022933037565060144nat, q()));
    let t0 = fq_square(&t0);
    proof { lemma_pow_m_mul(xv, 243008312049034227689219342330520790981211022933037565060144nat, 243008312049034227689219342330520790981211022933037565060144nat, q()); }
    assert(fq(t0) == pow_m(xv, 486016624098068455378438684661041581962422045866075130120288nat, q()));
    let t0 = fq_square(&t0);
    proof { lemma_pow_m_mul(xv, 486016624098068455378438684661041581962422045866075130120288nat, 486016624098068455378438684661041581962422045866075130120288nat, q()); }
    assert(fq(t0) == pow_m(xv, 972033248196136910756877369322083163924844091732150260240576nat, q()));
    let t0 = fq_square(&t0);
    proof { lemma_pow_m_mul(xv, 972033248196136910756877369322083163924844091732150260240576nat, 972033248196136910756877369322083163924844091732150260240576nat, q()); }
    assert(fq(t0) == pow_m(xv, 1944066496392273821513754738644166327849688183464300520481152nat, q()));
    let t0 = fq_square(&t0);
    proof { lemma_pow_m_mul(xv, 1944066496392273821513754738644166327849688183464300520481152nat, 1944066496392273821513754738644166327849688183464300520481152nat, q()); }
    assert(fq(t0) == pow_m(xv, 3888132992784547643027509477288332655699376366928601040962304nat, q()));
    let t0 = fq_square(&t0);
    proof { lemma_pow_m_mul(xv, 3888132992784547643027509477288332655699376366928601040962304nat, 3888132992784547643027509477288332655699376366928601040962304nat, q()); }
    assert(fq(t0) == pow_m(xv, 7776265985569095286055018954576665311398752733857202081924608nat, q()));
    let t0 = fq_square(&t0);
    proof { lemma_pow_m_mul(xv, 7776265985569095286055018954576665311398752733857202081924608nat, 7776265985569095286055018954576665311398752733857202081924608nat, q()); }
    assert(fq(t0) == pow_m(xv, 15552531971138190572110037909153330622797505467714404163849216nat, q()));
    let t0 = fq_square(&t0);
    proof { lemma_pow_m_mul(xv, 15552531971138190572110037909153330622797505467714404163849216nat, 15552531971138190572110037909153330622797505467714404163849216nat, q()); }
    assert(fq(t0) == pow_m(xv, 31105063942276381144220075818306661245595010935428808327698432nat, q()));
    let t0 = fq_mul(&t0, &ts[5]);
    proof { lemma_pow_m_mul(xv, 31105063942276381144220075818306661245595010935428808327698432nat, 13nat, q()); }
    assert(fq(t0) == pow_m(xv, 31105063942276381144220075818306661245595010935428808327698445nat, q()));
    t0
}

/// One stage of the long scan of the chain.
fn chain_scan_5(x: &Felt, t0: Felt, ts: &Vec<Felt>) -> (r: Felt)
    requires
        ts.len() == 21,
        fq(t0) == pow_m(fq(*x), 31105063942276381144220075818306661245595010935428808327698445nat, q()),
        fq(ts[0]) == pow_m(fq(*x), 9nat, q()),
        fq(ts[1]) == pow_m(fq(*x), 247nat, q()),
        fq(ts[2]) == pow_m(fq(*x), 399nat, q()),
        fq(ts[3]) == pow_m(fq(*x), 31nat, q()),
        fq(ts[4]) == pow_m(fq(*x), 309nat, q()),
    ensures
        fq(r) == pow_m(fq(*x), 8755297148735710088898562298102910035478524462919129465075615157858090483433nat, q()),
{
    let ghost xv: int = fq(*x);
    let t0 = fq_square(&t0);
    proof { lemma_pow_m_mul(xv, 31105063942276381144220075818306661245595010935428808327698445nat, 31105063942276381144220075818306661245595010935428808327698445nat, q()); }
    assert(fq(t0) == pow_m(xv, 62210127884552762288440151636613322491190021870857616655396890nat, q()));
    let t0 = fq_square(&t0);
    proof { lemma_pow_m_mul(xv, 62210127884552762288440151636613322491190021870857616655396890nat, 62210127884552762288440151636613322491190021870857616655396890nat, q()); }
    assert(fq(t0) == pow_m(xv, 124420255769105524576880303273226644982380043741715233310793780nat, q()));
    let t0 = fq_square(&t0);
    proof { lemma_pow_m_mul(xv, 124420255769105524576880303273226644982380043741715233310793780nat, 124420255769105524576880303273226644982380043741715233310793780nat, q()); }
    assert(fq(t0) == pow_m(xv, 248840511538211049153760606546453289964760087483430466621587560nat, q()));
    let t0 = fq_square(&t0);
    proof { lemma_pow_m_mul(xv, 248840511538211049153760606546453289964760087483430466621587560nat, 248840511538211049153760606546453289964760087483430466621587560nat, q()); }
    assert(fq(t0) == pow_m(xv, 497681023076422098307521213092906579929520174966860933243175120nat, q()));
    let t0 = fq_square(&t0);
    proof { lemma_pow_m_mul(xv, 497681023076422098307521213092906579929520174966860933243175120nat, 497681023076422098307521213092906579929520174966860933243175120nat, q()); }
    assert(fq(t0) == pow_m(xv, 995362046152844196615042426185813159859040349933721866486350240nat, q()));
    let t0 = fq_square(&t0);
    proof { lemma_pow_m_mul(xv, 995362046152844196615042426185813159859040349933721866486350240nat, 995362046152844196615042426185813159859040349933721866486350240nat, q()); }
    assert(fq(t0) == pow_m(xv, 1990724092305688393230084852371626319718080699867443732972700480nat, q()));
    let t0 = fq_square(&t0);
    proof { lemma_pow_m_mul(xv, 1990724092305688393230084852371626319718080699867443732972700480nat, 1990724092305688393230084852371626319718080699867443732972700480nat, q()); }
    assert(fq(t0) == pow_m(xv, 3981448184611376786460169704743252639436161399734887465945400960nat, q()));
    let t0 = fq_square(&t0);
    proof { lemma_pow_m_mul(xv, 3981448184611376786460169704743252639436161399734887465945400960nat, 3981448184611376786460169704743252639436161399734887465945400960nat, q()); }
    assert(fq(t0) == pow_m(xv, 7962896369222753572920339409486505278872322799469774931890801920nat, q()));
    let t0 = fq_square(&t0);
    proof { lemma_pow_m_mul(xv, 7962896369222753572920339409486505278872322799469774931890801920nat, 7962896369222753572920339409486505278872322799469774931890801920nat, q()); }
    assert(fq(t0) == pow_m(xv, 15925792738445507145840678818973010557744645598939549863781603840nat, q()));
    let t0 = fq_square(&t0);
    proof { lemma_pow_m_mul(xv, 15925792738445507145840678818973010557744645598939549863781603840nat, 15925792738445507145840678818973010557744645598939549863781603840nat, q()); }
    assert(fq(t0) == pow_m(xv, 31851585476891014291681357637946021115489291197879099727563207680nat, q()));
    let t0 = fq_square(&t0);
    proof { lemma_pow_m_mul(xv, 31851585476891014291681357637946021115489291197879099727563207680nat, 31851585476891014291681357637946021115489291197879099727563207680nat, q()); }
    assert(fq(t0) == pow_m(xv, 63703170953782028583362715275892042230978582395758199455126415360nat, q()));
    let t0 = fq_square(&t0);
    proof { lemma_pow_m_mul(xv, 63703170953782028583362715275892042230978582395758199455126415360nat, 63703170953782028583362715275892042230978582395758199455126415360nat, q()); }
    assert(fq(t0) == pow_m(xv, 127406341907564057166725430551784084461957164791516398910252830720nat, q()));
    let t0 = fq_square(&t0);
    proof { lemma_pow_m_mul(xv, 127406341907564057166725430551784084461957164791516398910252830720nat, 127406341907564057166725430551784084461957164791516398910252830720nat, q()); }
    assert(fq(t0) == pow_m(xv, 254812683815128114333450861103568168923914329583032797820505661440nat, q()));
    let t0 = fq_square(&t0);
    proof { lemma_pow_m_mul(xv, 254812683815128114333450861103568168923914329583032797820505661440nat, 254812683815128114333450861103568168923914329583032797820505661440nat, q()); }
    assert(fq(t0) == pow_m(xv, 509625367630256228666901722207136337847828659166065595641011322880nat, q()));
    let t0 = fq_mul(&t0, &ts[4]);
    proof { lemma_pow_m_mul(xv, 509625367630256228666901722207136337847828659166065595641011322880nat, 309nat, q()); }
    assert(fq(t0) == pow_m(xv, 509625367630256228666901722207136337847828659166065595641011323189nat, q()));
    let t0 = fq_square(&t0);
    proof { lemma_pow_m_mul(xv, 509625367630256228666901722207136337847828659166065595641011323189nat, 509625367630256228666901722207136337847828659166065595641011323189nat, q()); }
    assert(fq(t0) == pow_m(xv, 1019250735260512457333803444414272675695657318332131191282022646378nat, q()));
    let t0 = fq_square(&t0);
    proof { lemma_pow_m_mul(xv, 1019250735260512457333803444414272675695657318332131191282022646378nat, 1019250735260512457333803444414272675695657318332131191282022646378nat, q()); }
    assert(fq(t0) == pow_m(xv, 2038501470521024914667606888828545351391314636664262382564045292756nat, q()));
    let t0 = fq_square(&t0);
    proof { lemma_pow_m_mul(xv, 2038501470521024914667606888828545351391314636664262382564045292756nat, 2038501470521024914667606888828545351391314636664262382564045292756nat, q()); }
    assert(fq(t0) == pow_m(xv, 4077002941042049829335213777657090702782629273328524765128090585512nat, q()));
    let t0 = fq_square(&t0);
    proof { lemma_pow_m_mul(xv, 4077002941042049829335213777657090702782629273328524765128090585512nat, 4077002941042049829335213777657090702782629273328524765128090585512nat, q()); }
    assert(fq(t0) == pow_m(xv, 8154005882084099658670427555314181405565258546657049530256181171024nat, q()));
    let t0 = fq_square(&t0);
    proof { lemma_pow_m_mul(xv, 8154005882084099658670427555314181405565258546657049530256181171024nat, 8154005882084099658670427555314181405565258546657049530256181171024nat, q()); }
    assert(fq(t0) == pow_m(xv, 16308011764168199317340855110628362811130517093314099060512362342048nat, q()));
    let t0 = fq_square(&t0);
    proof { lemma_pow_m_mul(xv, 16308011764168199317340855110628362811130517093314099060512362342048nat, 16308011764168199317340855110628362811130517093314099060512362342048nat, q()); }
    assert(fq(t0) == pow_m(xv, 32616023528336398634681710221256725622261034186628198121024724684096nat, q()));
    let t0 = fq_mul(&t0, &ts[3]);
    proof { lemma_pow_m_mul(xv, 32616023528336398634681710221256725622261034186628198121024724684096nat, 31nat, q()); }
    assert(fq(t0) == pow_m(xv, 32616023528336398634681710221256725622261034186628198121024724684127nat, q()));
    let t0 = fq_square(&t0);
    proof { lemma_pow_m_mul(xv, 32616023528336398634681710221256725622261034186628198121024724684127nat, 32616023528336398634681710221256725622261034186628198121024724684127nat, q()); }
    assert(fq(t0) == pow_m(xv, 65232047056672797269363420442513451244522068373256396242049449368254nat, q()));
    let t0 = fq_square(&t0);
    proof { lemma_pow_m_mul(xv, 65232047056672797269363420442513451244522068373256396242049449368254nat, 65232047056672797269363420442513451244522068373256396242049449368254nat, q()); }
    assert(fq(t0) == pow_m(xv, 130464094113345594538726840885026902489044136746512792484098898736508nat, q()));
    let t0 = fq_square(&t0);
    proof { lemma_pow_m_mul(xv, 130464094113345594538726840885026902489044136746512792484098898736508nat, 130464094113345594538726840885026902489044136746512792484098898736508nat, q()); }
    assert(fq(t0) == pow_m(xv, 260928188226691189077453681770053804978088273493025584968197797473016nat, q()));
    let t0 = fq_square(&t0);
    proof { lemma_pow_m_mul(xv, 260928188226691189077453681770053804978088273493025584968197797473016nat, 260928188226691189077453681770053804978088273493025584968197797473016nat, q()); }
    assert(fq(t0) == pow_m(xv, 521856376453382378154907363540107609956176546986051169936395594946032nat, q()));
    let t0 = fq_square(&t0);
    proof { lemma_pow_m_mul(xv, 521856376453382378154907363540107609956176546986051169936395594946032nat, 521856376453382378154907363540107609956176546986051169936395594946032nat, q()); }
    assert(fq(t0) == pow_m(xv, 1043712752906764756309814727080215219912353093972102339872791189892064nat, q()));
    let t0 = fq_square(&t0);
    proof { lemma_pow_m_mul(xv, 1043712752906764756309814727080215219912353093972102339872791189892064nat, 1043712752906764756309814727080215219912353093972102339872791189892064nat, q()); }
    assert(fq(t0) == pow_m(xv, 2087425505813529512619629454160430439824706187944204679745582379784128nat, q()));
    let t0 = fq_square(&t0);
    proof { lemma_pow_m_mul(xv, 2087425505813529512619629454160430439824706187944204679745582379784128nat, 2087425505813529512619629454160430439824706187944204679745582379784128nat, q()); }
    assert(fq(t0) == pow_m(xv, 4174851011627059025239258908320860879649412375888409359491164759568256nat, q()));
    let t0 = fq_square(&t0);
    proof { lemma_pow_m_mul(xv, 4174851011627059025239258908320860879649412375888409359491164759568256nat, 4174851011627059025239258908320860879649412375888409359491164759568256nat, q()); }
    assert(fq(t0) == pow_m(xv, 8349702023254118050478517816641721759298824751776818718982329519136512nat, q()));
    let t0 = fq_square(&t0);
    proof { lemma_pow_m_mul(xv, 8349702023254118050478517816641721759298824751776818718982329519136512nat, 8349702023254118050478517816641721759298824751776818718982329519136512nat, q()); }
    assert(fq(t0) == pow_m(xv, 16699404046508236100957035633283443518597649503553637437964659038273024nat, q()));
    let t0 = fq_square(&t0);
    proof { lemma_pow_m_mul(xv, 16699404046508236100957035633283443518597649503553637437964659038273024nat, 16699404046508236100957035633283443518597649503553637437964659038273024nat, q()); }
    assert(fq(t0) == pow_m(xv, 33398808093016472201914071266566887037195299007107274875929318076546048nat, q()));
    let t0 = fq_square(&t0);
    proof { lemma_pow_m_mul(xv, 33398808093016472201914071266566887037195299007107274875929318076546048nat, 33398808093016472201914071266566887037195299007107274875929318076546048nat, q()); }
    assert(fq(t0) == pow_m(xv, 66797616186032944403828142533133774074390598014214549751858636153092096nat, q()));
    let t0 = fq_square(&t0);
    proof { lemma_pow_m_mul(xv, 66797616186032944403828142533133774074390598014214549751858636153092096nat, 66797616186032944403828142533133774074390598014214549751858636153092096nat, q()); }
    assert(fq(t0) == pow_m(xv, 133595232372065888807656285066267548148781196028429099503717272306184192nat, q()));
    let t0 = fq_square(&t0);
    proof { lemma_pow_m_mul(xv, 133595232372065888807656285066267548148781196028429099503717272306184192nat, 133595232372065888807656285066267548148781196028429099503717272306184192nat, q()); }
    assert(fq(t0) == pow_m(xv, 267190464744131777615312570132535096297562392056858199007434544612368384nat, q()));
    let t0 = fq_square(&t0);
    proof { lemma_pow_m_mul(xv, 267190464744131777615312570132535096297562392056858199007434544612368384nat, 267190464744131777615312570132535096297562392056858199007434544612368384nat, q()); }
    assert(fq(t0) == pow_m(xv, 534380929488263555230625140265070192595124784113716398014869089224736768nat, q()));
    let t0 = fq_square(&t0);
    proof { lemma_pow_m_mul(xv, 534380929488263555230625140265070192595124784113716398014869089224736768nat, 534380929488263555230625140265070192595124784113716398014869089224736768nat, q()); }
    assert(fq(t0) == pow_m(xv, 1068761858976527110461250280530140385190249568227432796029738178449473536nat, q()));
    let t0 = fq_mul(&t0, &ts[2]);
    proof { lemma_pow_m_mul(xv, 1068761858976527110461250280530140385190249568227432796029738178449473536nat, 399nat, q()); }
    assert(fq(t0) == pow_m(xv, 1068761858976527110461250280530140385190249568227432796029738178449473935nat, q()));
    let t0 = fq_square(&t0);
    proof { lemma_pow_m_mul(xv, 1068761858976527110461250280530140385190249568227432796029738178449473935nat, 1068761858976527110461250280530140385190249568227432796029738178449473935nat, q()); }
    assert(fq(t0) == pow_m(xv, 2137523717953054220922500561060280770380499136454865592059476356898947870nat, q()));
    let t0 = fq_square(&t0);
    proof { lemma_pow_m_mul(xv, 2137523717953054220922500561060280770380499136454865592059476356898947870nat, 2137523717953054220922500561060280770380499136454865592059476356898947870nat, q()); }
    assert(fq(t0) == pow_m(xv, 4275047435906108441845001122120561540760998272909731184118952713797895740nat, q()));
    let t0 = fq_square(&t0);
    proof { lemma_pow_m_mul(xv, 4275047435906108441845001122120561540760998272909731184118952713797895740nat, 4275047435906108441845001122120561540760998272909731184118952713797895740nat, q()); }
    assert(fq(t0) == pow_m(xv, 8550094871812216883690002244241123081521996545819462368237905427595791480nat, q()));
    let t0 = fq_square(&t0);
    proof { lemma_pow_m_mul(xv, 8550094871812216883690002244241123081521996545819462368237905427595791480nat, 8550094871812216883690002244241123081521996545819462368237905427595791480nat, q()); }
    assert(fq(t0) == pow_m(xv, 17100189743624433767380004488482246163043993091638924736475810855191582960nat, q()));
    let t0 = fq_square(&t0);
    proof { lemma_pow_m_mul(xv, 17100189743624433767380004488482246163043993091638924736475810855191582960nat, 17100189743624433767380004488482246163043993091638924736475810855191582960nat, q()); }
    assert(fq(t0) == pow_m(xv, 34200379487248867534760008976964492326087986183277849472951621710383165920nat, q()));
    let t0 = fq_square(&t0);
    proof { lemma_pow_m_mul(xv, 34200379487248867534760008976964492326087986183277849472951621710383165920nat, 34200379487248867534760008976964492326087986183277849472951621710383165920nat, q()); }
    assert(fq(t0) == pow_m(xv, 68400758974497735069520017953928984652175972366555698945903243420766331840nat, q()));
    let t0 = fq_square(&t0);
    proof { lemma_pow_m_mul(xv, 68400758974497735069520017953928984652175972366555698945903243420766331840nat, 68400758974497735069520017953928984652175972366555698945903243420766331840nat, q()); }
    assert(fq(t0) == pow_m(xv, 136801517948995470139040035907857969304351944733111397891806486841532663680nat, q()));
    let t0 = fq_square(&t0);
    proof { lemma_pow_m_mul(xv, 136801517948995470139040035907857969304351944733111397891806486841532663680nat, 136801517948995470139040035907857969304351944733111397891806486841532663680nat, q()); }
    assert(fq(t0) == pow_m(xv, 273603035897990940278080071815715938608703889466222795783612973683065327360nat, q()));
    let t0 = fq_mul(&t0, &ts[1]);
    proof { lemma_pow_m_mul(xv, 273603035897990940278080071815715938608703889466222795783612973683065327360nat, 247nat, q()); }
    assert(fq(t0) == pow_m(xv, 273603035897990940278080071815715938608703889466222795783612973683065327607nat, q()));
    let t0 = fq_square(&t0);
    proof { lemma_pow_m_mul(xv, 273603035897990940278080071815715938608703889466222795783612973683065327607nat, 273603035897990940278080071815715938608703889466222795783612973683065327607nat, q()); }
    assert(fq(t0) == pow_m(xv, 547206071795981880556160143631431877217407778932445591567225947366130655214nat, q()));
    let t0 = fq_square(&t0);
    proof { lemma_pow_m_mul(xv, 547206071795981880556160143631431877217407778932445591567225947366130655214nat, 547206071795981880556160143631431877217407778932445591567225947366130655214nat, q()); }
    assert(fq(t0) == pow_m(xv, 1094412143591963761112320287262863754434815557864891183134451894732261310428nat, q()));
    let t0 = fq_square(&t0);
    proof { lemma_pow_m_mul(xv, 1094412143591963761112320287262863754434815557864891183134451894732261310428nat, 1094412143591963761112320287262863754434815557864891183134451894732261310428nat, q()); }
    assert(fq(t0) == pow_m(xv, 2188824287183927522224640574525727508869631115729782366268903789464522620856nat, q()));
    let t0 = fq_square(&t0);
    proof { lemma_pow_m_mul(xv, 2188824287183927522224640574525727508869631115729782366268903789464522620856nat, 2188824287183927522224640574525727508869631115729782366268903789464522620856nat, q()); }
    assert(fq(t0) == pow_m(xv, 4377648574367855044449281149051455017739262231459564732537807578929045241712nat, q()));
    let t0 = fq_square(&t0);
    proof { lemma_pow_m_mul(xv, 4377648574367855044449281149051455017739262231459564732537807578929045241712nat, 4377648574367855044449281149051455017739262231459564732537807578929045241712nat, q()); }
    assert(fq(t0) == pow_m(xv, 8755297148735710088898562298102910035478524462919129465075615157858090483424nat, q()));
    let r0 = fq_mul(&t0, &ts[0]);
    proof { lemma_pow_m_mul(xv, 8755297148735710088898562298102910035478524462919129465075615157858090483424nat, 9nat, q()); }
    assert(fq(r0) == pow_m(xv, 8755297148735710088898562298102910035478524462919129465075615157858090483433nat, q()));
    r0
}

/// Raises a field element to the `INV_ALPHA`-th power by the fixed
/// addition chain.
pub fn exp_inv_alpha(x: &Felt) -> (r: Felt)
    ensures
        fq(r) == pow_m(fq(*x), inv_alpha(), q()),
{
    let ts = chain_powers(x);
    let t0 = chain_scan_1(x, &ts);
    let t0 = chain_scan_2(x, t0, &ts);
    let t0 = chain_scan_3(x, t0, &ts);
    let t0 = chain_scan_4(x, t0, &ts);
    chain_scan_5(x, t0, &ts)
}
} // verus!
