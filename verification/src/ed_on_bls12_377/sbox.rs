//! The inverse-alpha power map of the Anemoi S-box over the twisted
//! Edwards base field.
//!
//! The S-box raises an element to the inverse of `ALPHA = 11` modulo
//! `q - 1`. The exponent is fixed, so the map is computed by a
//! straight-line square-and-multiply scan of its bits, which does not
//! branch on the input. Each step is proved to hold the stated power of
//! the input, so the contract pins the result to `x^INV_ALPHA mod q`.

use vstd::prelude::*;
use crate::arith::{pow_m, lemma_pow_m_mul, lemma_pow_m_mul_base, lemma_pow_m_square};
use crate::ed_on_bls12_377::field::{Felt, fq, q, fq_square, fq_mul, fq_from_limbs};

verus! {

/// The forward S-box exponent.
pub const ALPHA: u32 = 11;

/// The little-endian limbs of the inverse exponent `ALPHA^-1 mod (q - 1)`.
pub const INV_ALPHA: [u64; 4] = [
    0x655422e8ba2e8ba3,
    0xec45a72d92e8ba2f,
    0x37d9565ea88aa746,
    0x0f466a36210d4175,
];

/// The inverse exponent `ALPHA^-1 mod (q - 1)` as an integer.
pub open spec fn inv_alpha() -> nat {
    0xf466a36210d417537d9565ea88aa746ec45a72d92e8ba2f655422e8ba2e8ba3nat
}

/// The additive constant of the S-box second half: the inverse of the
/// generator, `22^-1 mod q`.
pub open spec fn delta_val() -> int {
    0x28bbc5e5ad78ae8dea4390fc6c1c68bd20b9bdcedd1745d3b8e05d1745d1746int
}

/// The element holding `delta_val`.
pub(crate) fn delta() -> (r: Felt)
    ensures
        fq(r) == delta_val(),
{
    let r = fq_from_limbs(
        0x3b8e05d1745d1746,
        0xd20b9bdcedd1745d,
        0xdea4390fc6c1c68b,
        0x028bbc5e5ad78ae8,
    );
    r
}

/// One stage of the square-and-multiply scan of the exponent.
fn scan_stage_1(x: &Felt, t: Felt) -> (r: Felt)
    requires
        fq(t) == fq(*x),
    ensures
        fq(r) == pow_m(fq(*x), 137585492456745006nat, q()),
{
    let ghost xv: int = fq(*x);
    let mut t = t;
    t = fq_square(&t);
    proof { lemma_pow_m_square(xv, q()); }
    assert(fq(t) == pow_m(xv, 2nat, q()));
    t = fq_mul(&t, x);
    proof { lemma_pow_m_mul_base(xv, 2nat, q()); }
    assert(fq(t) == pow_m(xv, 3nat, q()));
    t = fq_square(&t);
    proof { lemma_pow_m_mul(xv, 3nat, 3nat, q()); }
    assert(fq(t) == pow_m(xv, 6nat, q()));
    t = fq_mul(&t, x);
    proof { lemma_pow_m_mul_base(xv, 6nat, q()); }
    assert(fq(t) == pow_m(xv, 7nat, q()));
    t = fq_square(&t);
    proof { lemma_pow_m_mul(xv, 7nat, 7nat, q()); }
    assert(fq(t) == pow_m(xv, 14nat, q()));
    t = fq_mul(&t, x);
    proof { lemma_pow_m_mul_base(xv, 14nat, q()); }
    assert(fq(t) == pow_m(xv, 15nat, q()));
    t = fq_square(&t);
    proof { lemma_pow_m_mul(xv, 15nat, 15nat, q()); }
    assert(fq(t) == pow_m(xv, 30nat, q()));
    t = fq_square(&t);
    proof { lemma_pow_m_mul(xv, 30nat, 30nat, q()); }
    assert(fq(t) == pow_m(xv, 60nat, q()));
    t = fq_mul(&t, x);
    proof { lemma_pow_m_mul_base(xv, 60nat, q()); }
    assert(fq(t) == pow_m(xv, 61nat, q()));
    t = fq_square(&t);
    proof { lemma_pow_m_mul(xv, 61nat, 61nat, q()); }
    assert(fq(t) == pow_m(xv, 122nat, q()));
    t = fq_square(&t);
    proof { lemma_pow_m_mul(xv, 122nat, 122nat, q()); }
    assert(fq(t) == pow_m(xv, 244nat, q()));
    t = fq_square(&t);
    proof { lemma_pow_m_mul(xv, 244nat, 244nat, q()); }
    assert(fq(t) == pow_m(xv, 488nat, q()));
    t = fq_square(&t);
    proof { lemma_pow_m_mul(xv, 488nat, 488nat, q()); }
    assert(fq(t) == pow_m(xv, 976nat, q()));
    t = fq_mul(&t, x);
    proof { lemma_pow_m_mul_base(xv, 976nat, q()); }
    assert(fq(t) == pow_m(xv, 977nat, q()));
    t = fq_square(&t);
    proof { lemma_pow_m_mul(xv, 977nat, 977nat, q()); }
    assert(fq(t) == pow_m(xv, 1954nat, q()));
    t = fq_mul(&t, x);
    proof { lemma_pow_m_mul_base(xv, 1954nat, q()); }
    assert(fq(t) == pow_m(xv, 1955nat, q()));
    t = fq_square(&t);
    proof { lemma_pow_m_mul(xv, 1955nat, 1955nat, q()); }
    assert(fq(t) == pow_m(xv, 3910nat, q()));
    t = fq_square(&t);
    proof { lemma_pow_m_mul(xv, 3910nat, 3910nat, q()); }
    assert(fq(t) == pow_m(xv, 7820nat, q()));
    t = fq_square(&t);
    proof { lemma_pow_m_mul(xv, 7820nat, 7820nat, q()); }
    assert(fq(t) == pow_m(xv, 15640nat, q()));
    t = fq_mul(&t, x);
    proof { lemma_pow_m_mul_base(xv, 15640nat, q()); }
    assert(fq(t) == pow_m(xv, 15641nat, q()));
    t = fq_square(&t);
    proof { lemma_pow_m_mul(xv, 15641nat, 15641nat, q()); }
    assert(fq(t) == pow_m(xv, 31282nat, q()));
    t = fq_mul(&t, x);
    proof { lemma_pow_m_mul_base(xv, 31282nat, q()); }
    assert(fq(t) == pow_m(xv, 31283nat, q()));
    t = fq_square(&t);
    proof { lemma_pow_m_mul(xv, 31283nat, 31283nat, q()); }
    assert(fq(t) == pow_m(xv, 62566nat, q()));
    t = fq_square(&t);
    proof { lemma_pow_m_mul(xv, 62566nat, 62566nat, q()); }
    assert(fq(t) == pow_m(xv, 125132nat, q()));
    t = fq_mul(&t, x);
    proof { lemma_pow_m_mul_base(xv, 125132nat, q()); }
    assert(fq(t) == pow_m(xv, 125133nat, q()));
    t = fq_square(&t);
    proof { lemma_pow_m_mul(xv, 125133nat, 125133nat, q()); }
    assert(fq(t) == pow_m(xv, 250266nat, q()));
    t = fq_square(&t);
    proof { lemma_pow_m_mul(xv, 250266nat, 250266nat, q()); }
    assert(fq(t) == pow_m(xv, 500532nat, q()));
    t = fq_mul(&t, x);
    proof { lemma_pow_m_mul_base(xv, 500532nat, q()); }
    assert(fq(t) == pow_m(xv, 500533nat, q()));
    t = fq_square(&t);
    proof { lemma_pow_m_mul(xv, 500533nat, 500533nat, q()); }
    assert(fq(t) == pow_m(xv, 1001066nat, q()));
    t = fq_square(&t);
    proof { lemma_pow_m_mul(xv, 1001066nat, 1001066nat, q()); }
    assert(fq(t) == pow_m(xv, 2002132nat, q()));
    t = fq_square(&t);
    proof { lemma_pow_m_mul(xv, 2002132nat, 2002132nat, q()); }
    assert(fq(t) == pow_m(xv, 4004264nat, q()));
    t = fq_square(&t);
    proof { lemma_pow_m_mul(xv, 4004264nat, 4004264nat, q()); }
    assert(fq(t) == pow_m(xv, 8008528nat, q()));
    t = fq_mul(&t, x);
    proof { lemma_pow_m_mul_base(xv, 8008528nat, q()); }
    assert(fq(t) == pow_m(xv, 8008529nat, q()));
    t = fq_square(&t);
    proof { lemma_pow_m_mul(xv, 8008529nat, 8008529nat, q()); }
    assert(fq(t) == pow_m(xv, 16017058nat, q()));
    t = fq_mul(&t, x);
    proof { lemma_pow_m_mul_base(xv, 16017058nat, q()); }
    assert(fq(t) == pow_m(xv, 16017059nat, q()));
    t = fq_square(&t);
    proof { lemma_pow_m_mul(xv, 16017059nat, 16017059nat, q()); }
    assert(fq(t) == pow_m(xv, 32034118nat, q()));
    t = fq_square(&t);
    proof { lemma_pow_m_mul(xv, 32034118nat, 32034118nat, q()); }
    assert(fq(t) == pow_m(xv, 64068236nat, q()));
    t = fq_mul(&t, x);
    proof { lemma_pow_m_mul_base(xv, 64068236nat, q()); }
    assert(fq(t) == pow_m(xv, 64068237nat, q()));
    t = fq_square(&t);
    proof { lemma_pow_m_mul(xv, 64068237nat, 64068237nat, q()); }
    assert(fq(t) == pow_m(xv, 128136474nat, q()));
    t = fq_mul(&t, x);
    proof { lemma_pow_m_mul_base(xv, 128136474nat, q()); }
    assert(fq(t) == pow_m(xv, 128136475nat, q()));
    t = fq_square(&t);
    proof { lemma_pow_m_mul(xv, 128136475nat, 128136475nat, q()); }
    assert(fq(t) == pow_m(xv, 256272950nat, q()));
    t = fq_square(&t);
    proof { lemma_pow_m_mul(xv, 256272950nat, 256272950nat, q()); }
    assert(fq(t) == pow_m(xv, 512545900nat, q()));
    t = fq_square(&t);
    proof { lemma_pow_m_mul(xv, 512545900nat, 512545900nat, q()); }
    assert(fq(t) == pow_m(xv, 1025091800nat, q()));
    t = fq_square(&t);
    proof { lemma_pow_m_mul(xv, 1025091800nat, 1025091800nat, q()); }
    assert(fq(t) == pow_m(xv, 2050183600nat, q()));
    t = fq_mul(&t, x);
    proof { lemma_pow_m_mul_base(xv, 2050183600nat, q()); }
    assert(fq(t) == pow_m(xv, 2050183601nat, q()));
    t = fq_square(&t);
    proof { lemma_pow_m_mul(xv, 2050183601nat, 2050183601nat, q()); }
    assert(fq(t) == pow_m(xv, 4100367202nat, q()));
    t = fq_square(&t);
    proof { lemma_pow_m_mul(xv, 4100367202nat, 4100367202nat, q()); }
    assert(fq(t) == pow_m(xv, 8200734404nat, q()));
    t = fq_square(&t);
    proof { lemma_pow_m_mul(xv, 8200734404nat, 8200734404nat, q()); }
    assert(fq(t) == pow_m(xv, 16401468808nat, q()));
    t = fq_square(&t);
    proof { lemma_pow_m_mul(xv, 16401468808nat, 16401468808nat, q()); }
    assert(fq(t) == pow_m(xv, 32802937616nat, q()));
    t = fq_square(&t);
    proof { lemma_pow_m_mul(xv, 32802937616nat, 32802937616nat, q()); }
    assert(fq(t) == pow_m(xv, 65605875232nat, q()));
    t = fq_mul(&t, x);
    proof { lemma_pow_m_mul_base(xv, 65605875232nat, q()); }
    assert(fq(t) == pow_m(xv, 65605875233nat, q()));
    t = fq_square(&t);
    proof { lemma_pow_m_mul(xv, 65605875233nat, 65605875233nat, q()); }
    assert(fq(t) == pow_m(xv, 131211750466nat, q()));
    t = fq_square(&t);
    proof { lemma_pow_m_mul(xv, 131211750466nat, 131211750466nat, q()); }
    assert(fq(t) == pow_m(xv, 262423500932nat, q()));
    t = fq_square(&t);
    proof { lemma_pow_m_mul(xv, 262423500932nat, 262423500932nat, q()); }
    assert(fq(t) == pow_m(xv, 524847001864nat, q()));
    t = fq_square(&t);
    proof { lemma_pow_m_mul(xv, 524847001864nat, 524847001864nat, q()); }
    assert(fq(t) == pow_m(xv, 1049694003728nat, q()));
    t = fq_square(&t);
    proof { lemma_pow_m_mul(xv, 1049694003728nat, 1049694003728nat, q()); }
    assert(fq(t) == pow_m(xv, 2099388007456nat, q()));
    t = fq_mul(&t, x);
    proof { lemma_pow_m_mul_base(xv, 2099388007456nat, q()); }
    assert(fq(t) == pow_m(xv, 2099388007457nat, q()));
    t = fq_square(&t);
    proof { lemma_pow_m_mul(xv, 2099388007457nat, 2099388007457nat, q()); }
    assert(fq(t) == pow_m(xv, 4198776014914nat, q()));
    t = fq_mul(&t, x);
    proof { lemma_pow_m_mul_base(xv, 4198776014914nat, q()); }
    assert(fq(t) == pow_m(xv, 4198776014915nat, q()));
    t = fq_square(&t);
    proof { lemma_pow_m_mul(xv, 4198776014915nat, 4198776014915nat, q()); }
    assert(fq(t) == pow_m(xv, 8397552029830nat, q()));
    t = fq_square(&t);
    proof { lemma_pow_m_mul(xv, 8397552029830nat, 8397552029830nat, q()); }
    assert(fq(t) == pow_m(xv, 16795104059660nat, q()));
    t = fq_mul(&t, x);
    proof { lemma_pow_m_mul_base(xv, 16795104059660nat, q()); }
    assert(fq(t) == pow_m(xv, 16795104059661nat, q()));
    t = fq_square(&t);
    proof { lemma_pow_m_mul(xv, 16795104059661nat, 16795104059661nat, q()); }
    assert(fq(t) == pow_m(xv, 33590208119322nat, q()));
    t = fq_square(&t);
    proof { lemma_pow_m_mul(xv, 33590208119322nat, 33590208119322nat, q()); }
    assert(fq(t) == pow_m(xv, 67180416238644nat, q()));
    t = fq_mul(&t, x);
    proof { lemma_pow_m_mul_base(xv, 67180416238644nat, q()); }
    assert(fq(t) == pow_m(xv, 67180416238645nat, q()));
    t = fq_square(&t);
    proof { lemma_pow_m_mul(xv, 67180416238645nat, 67180416238645nat, q()); }
    assert(fq(t) == pow_m(xv, 134360832477290nat, q()));
    t = fq_square(&t);
    proof { lemma_pow_m_mul(xv, 134360832477290nat, 134360832477290nat, q()); }
    assert(fq(t) == pow_m(xv, 268721664954580nat, q()));
    t = fq_square(&t);
    proof { lemma_pow_m_mul(xv, 268721664954580nat, 268721664954580nat, q()); }
    assert(fq(t) == pow_m(xv, 537443329909160nat, q()));
    t = fq_square(&t);
    proof { lemma_pow_m_mul(xv, 537443329909160nat, 537443329909160nat, q()); }
    assert(fq(t) == pow_m(xv, 1074886659818320nat, q()));
    t = fq_square(&t);
    proof { lemma_pow_m_mul(xv, 1074886659818320nat, 1074886659818320nat, q()); }
    assert(fq(t) == pow_m(xv, 2149773319636640nat, q()));
    t = fq_square(&t);
    proof { lemma_pow_m_mul(xv, 2149773319636640nat, 2149773319636640nat, q()); }
    assert(fq(t) == pow_m(xv, 4299546639273280nat, q()));
    t = fq_mul(&t, x);
    proof { lemma_pow_m_mul_base(xv, 4299546639273280nat, q()); }
    assert(fq(t) == pow_m(xv, 4299546639273281nat, q()));
    t = fq_square(&t);
    proof { lemma_pow_m_mul(xv, 4299546639273281nat, 4299546639273281nat, q()); }
    assert(fq(t) == pow_m(xv, 8599093278546562nat, q()));
    t = fq_square(&t);
    proof { lemma_pow_m_mul(xv, 8599093278546562nat, 8599093278546562nat, q()); }
    assert(fq(t) == pow_m(xv, 17198186557093124nat, q()));
    t = fq_mul(&t, x);
    proof { lemma_pow_m_mul_base(xv, 17198186557093124nat, q()); }
    assert(fq(t) == pow_m(xv, 17198186557093125nat, q()));
    t = fq_square(&t);
    proof { lemma_pow_m_mul(xv, 17198186557093125nat, 17198186557093125nat, q()); }
    assert(fq(t) == pow_m(xv, 34396373114186250nat, q()));
    t = fq_mul(&t, x);
    proof { lemma_pow_m_mul_base(xv, 34396373114186250nat, q()); }
    assert(fq(t) == pow_m(xv, 34396373114186251nat, q()));
    t = fq_square(&t);
    proof { lemma_pow_m_mul(xv, 34396373114186251nat, 34396373114186251nat, q()); }
    assert(fq(t) == pow_m(xv, 68792746228372502nat, q()));
    t = fq_mul(&t, x);
    proof { lemma_pow_m_mul_base(xv, 68792746228372502nat, q()); }
    assert(fq(t) == pow_m(xv, 68792746228372503nat, q()));
    t = fq_square(&t);
    proof { lemma_pow_m_mul(xv, 68792746228372503nat, 68792746228372503nat, q()); }
    assert(fq(t) == pow_m(xv, 137585492456745006nat, q()));
    t
}

/// One stage of the square-and-multiply scan of the exponent.
fn scan_stage_2(x: &Felt, t: Felt) -> (r: Felt)
    requires
        fq(t) == pow_m(fq(*x), 137585492456745006nat, q()),
    ensures
        fq(r) == pow_m(fq(*x), 619629972559783000206529919799573nat, q()),
{
    let ghost xv: int = fq(*x);
    let mut t = t;
    t = fq_square(&t);
    proof { lemma_pow_m_mul(xv, 137585492456745006nat, 137585492456745006nat, q()); }
    assert(fq(t) == pow_m(xv, 275170984913490012nat, q()));
    t = fq_mul(&t, x);
    proof { lemma_pow_m_mul_base(xv, 275170984913490012nat, q()); }
    assert(fq(t) == pow_m(xv, 275170984913490013nat, q()));
    t = fq_square(&t);
    proof { lemma_pow_m_mul(xv, 275170984913490013nat, 275170984913490013nat, q()); }
    assert(fq(t) == pow_m(xv, 550341969826980026nat, q()));
    t = fq_square(&t);
    proof { lemma_pow_m_mul(xv, 550341969826980026nat, 550341969826980026nat, q()); }
    assert(fq(t) == pow_m(xv, 1100683939653960052nat, q()));
    t = fq_mul(&t, x);
    proof { lemma_pow_m_mul_base(xv, 1100683939653960052nat, q()); }
    assert(fq(t) == pow_m(xv, 1100683939653960053nat, q()));
    t = fq_square(&t);
    proof { lemma_pow_m_mul(xv, 1100683939653960053nat, 1100683939653960053nat, q()); }
    assert(fq(t) == pow_m(xv, 2201367879307920106nat, q()));
    t = fq_square(&t);
    proof { lemma_pow_m_mul(xv, 2201367879307920106nat, 2201367879307920106nat, q()); }
    assert(fq(t) == pow_m(xv, 4402735758615840212nat, q()));
    t = fq_square(&t);
    proof { lemma_pow_m_mul(xv, 4402735758615840212nat, 4402735758615840212nat, q()); }
    assert(fq(t) == pow_m(xv, 8805471517231680424nat, q()));
    t = fq_mul(&t, x);
    proof { lemma_pow_m_mul_base(xv, 8805471517231680424nat, q()); }
    assert(fq(t) == pow_m(xv, 8805471517231680425nat, q()));
    t = fq_square(&t);
    proof { lemma_pow_m_mul(xv, 8805471517231680425nat, 8805471517231680425nat, q()); }
    assert(fq(t) == pow_m(xv, 17610943034463360850nat, q()));
    t = fq_mul(&t, x);
    proof { lemma_pow_m_mul_base(xv, 17610943034463360850nat, q()); }
    assert(fq(t) == pow_m(xv, 17610943034463360851nat, q()));
    t = fq_square(&t);
    proof { lemma_pow_m_mul(xv, 17610943034463360851nat, 17610943034463360851nat, q()); }
    assert(fq(t) == pow_m(xv, 35221886068926721702nat, q()));
    t = fq_square(&t);
    proof { lemma_pow_m_mul(xv, 35221886068926721702nat, 35221886068926721702nat, q()); }
    assert(fq(t) == pow_m(xv, 70443772137853443404nat, q()));
    t = fq_mul(&t, x);
    proof { lemma_pow_m_mul_base(xv, 70443772137853443404nat, q()); }
    assert(fq(t) == pow_m(xv, 70443772137853443405nat, q()));
    t = fq_square(&t);
    proof { lemma_pow_m_mul(xv, 70443772137853443405nat, 70443772137853443405nat, q()); }
    assert(fq(t) == pow_m(xv, 140887544275706886810nat, q()));
    t = fq_mul(&t, x);
    proof { lemma_pow_m_mul_base(xv, 140887544275706886810nat, q()); }
    assert(fq(t) == pow_m(xv, 140887544275706886811nat, q()));
    t = fq_square(&t);
    proof { lemma_pow_m_mul(xv, 140887544275706886811nat, 140887544275706886811nat, q()); }
    assert(fq(t) == pow_m(xv, 281775088551413773622nat, q()));
    t = fq_mul(&t, x);
    proof { lemma_pow_m_mul_base(xv, 281775088551413773622nat, q()); }
    assert(fq(t) == pow_m(xv, 281775088551413773623nat, q()));
    t = fq_square(&t);
    proof { lemma_pow_m_mul(xv, 281775088551413773623nat, 281775088551413773623nat, q()); }
    assert(fq(t) == pow_m(xv, 563550177102827547246nat, q()));
    t = fq_mul(&t, x);
    proof { lemma_pow_m_mul_base(xv, 563550177102827547246nat, q()); }
    assert(fq(t) == pow_m(xv, 563550177102827547247nat, q()));
    t = fq_square(&t);
    proof { lemma_pow_m_mul(xv, 563550177102827547247nat, 563550177102827547247nat, q()); }
    assert(fq(t) == pow_m(xv, 1127100354205655094494nat, q()));
    t = fq_mul(&t, x);
    proof { lemma_pow_m_mul_base(xv, 1127100354205655094494nat, q()); }
    assert(fq(t) == pow_m(xv, 1127100354205655094495nat, q()));
    t = fq_square(&t);
    proof { lemma_pow_m_mul(xv, 1127100354205655094495nat, 1127100354205655094495nat, q()); }
    assert(fq(t) == pow_m(xv, 2254200708411310188990nat, q()));
    t = fq_square(&t);
    proof { lemma_pow_m_mul(xv, 2254200708411310188990nat, 2254200708411310188990nat, q()); }
    assert(fq(t) == pow_m(xv, 4508401416822620377980nat, q()));
    t = fq_mul(&t, x);
    proof { lemma_pow_m_mul_base(xv, 4508401416822620377980nat, q()); }
    assert(fq(t) == pow_m(xv, 4508401416822620377981nat, q()));
    t = fq_square(&t);
    proof { lemma_pow_m_mul(xv, 4508401416822620377981nat, 4508401416822620377981nat, q()); }
    assert(fq(t) == pow_m(xv, 9016802833645240755962nat, q()));
    t = fq_mul(&t, x);
    proof { lemma_pow_m_mul_base(xv, 9016802833645240755962nat, q()); }
    assert(fq(t) == pow_m(xv, 9016802833645240755963nat, q()));
    t = fq_square(&t);
    proof { lemma_pow_m_mul(xv, 9016802833645240755963nat, 9016802833645240755963nat, q()); }
    assert(fq(t) == pow_m(xv, 18033605667290481511926nat, q()));
    t = fq_square(&t);
    proof { lemma_pow_m_mul(xv, 18033605667290481511926nat, 18033605667290481511926nat, q()); }
    assert(fq(t) == pow_m(xv, 36067211334580963023852nat, q()));
    t = fq_square(&t);
    proof { lemma_pow_m_mul(xv, 36067211334580963023852nat, 36067211334580963023852nat, q()); }
    assert(fq(t) == pow_m(xv, 72134422669161926047704nat, q()));
    t = fq_mul(&t, x);
    proof { lemma_pow_m_mul_base(xv, 72134422669161926047704nat, q()); }
    assert(fq(t) == pow_m(xv, 72134422669161926047705nat, q()));
    t = fq_square(&t);
    proof { lemma_pow_m_mul(xv, 72134422669161926047705nat, 72134422669161926047705nat, q()); }
    assert(fq(t) == pow_m(xv, 144268845338323852095410nat, q()));
    t = fq_square(&t);
    proof { lemma_pow_m_mul(xv, 144268845338323852095410nat, 144268845338323852095410nat, q()); }
    assert(fq(t) == pow_m(xv, 288537690676647704190820nat, q()));
    t = fq_mul(&t, x);
    proof { lemma_pow_m_mul_base(xv, 288537690676647704190820nat, q()); }
    assert(fq(t) == pow_m(xv, 288537690676647704190821nat, q()));
    t = fq_square(&t);
    proof { lemma_pow_m_mul(xv, 288537690676647704190821nat, 288537690676647704190821nat, q()); }
    assert(fq(t) == pow_m(xv, 577075381353295408381642nat, q()));
    t = fq_square(&t);
    proof { lemma_pow_m_mul(xv, 577075381353295408381642nat, 577075381353295408381642nat, q()); }
    assert(fq(t) == pow_m(xv, 1154150762706590816763284nat, q()));
    t = fq_mul(&t, x);
    proof { lemma_pow_m_mul_base(xv, 1154150762706590816763284nat, q()); }
    assert(fq(t) == pow_m(xv, 1154150762706590816763285nat, q()));
    t = fq_square(&t);
    proof { lemma_pow_m_mul(xv, 1154150762706590816763285nat, 1154150762706590816763285nat, q()); }
    assert(fq(t) == pow_m(xv, 2308301525413181633526570nat, q()));
    t = fq_square(&t);
    proof { lemma_pow_m_mul(xv, 2308301525413181633526570nat, 2308301525413181633526570nat, q()); }
    assert(fq(t) == pow_m(xv, 4616603050826363267053140nat, q()));
    t = fq_mul(&t, x);
    proof { lemma_pow_m_mul_base(xv, 4616603050826363267053140nat, q()); }
    assert(fq(t) == pow_m(xv, 4616603050826363267053141nat, q()));
    t = fq_square(&t);
    proof { lemma_pow_m_mul(xv, 4616603050826363267053141nat, 4616603050826363267053141nat, q()); }
    assert(fq(t) == pow_m(xv, 9233206101652726534106282nat, q()));
    t = fq_mul(&t, x);
    proof { lemma_pow_m_mul_base(xv, 9233206101652726534106282nat, q()); }
    assert(fq(t) == pow_m(xv, 9233206101652726534106283nat, q()));
    t = fq_square(&t);
    proof { lemma_pow_m_mul(xv, 9233206101652726534106283nat, 9233206101652726534106283nat, q()); }
    assert(fq(t) == pow_m(xv, 18466412203305453068212566nat, q()));
    t = fq_square(&t);
    proof { lemma_pow_m_mul(xv, 18466412203305453068212566nat, 18466412203305453068212566nat, q()); }
    assert(fq(t) == pow_m(xv, 36932824406610906136425132nat, q()));
    t = fq_square(&t);
    proof { lemma_pow_m_mul(xv, 36932824406610906136425132nat, 36932824406610906136425132nat, q()); }
    assert(fq(t) == pow_m(xv, 73865648813221812272850264nat, q()));
    t = fq_mul(&t, x);
    proof { lemma_pow_m_mul_base(xv, 73865648813221812272850264nat, q()); }
    assert(fq(t) == pow_m(xv, 73865648813221812272850265nat, q()));
    t = fq_square(&t);
    proof { lemma_pow_m_mul(xv, 73865648813221812272850265nat, 73865648813221812272850265nat, q()); }
    assert(fq(t) == pow_m(xv, 147731297626443624545700530nat, q()));
    t = fq_square(&t);
    proof { lemma_pow_m_mul(xv, 147731297626443624545700530nat, 147731297626443624545700530nat, q()); }
    assert(fq(t) == pow_m(xv, 295462595252887249091401060nat, q()));
    t = fq_mul(&t, x);
    proof { lemma_pow_m_mul_base(xv, 295462595252887249091401060nat, q()); }
    assert(fq(t) == pow_m(xv, 295462595252887249091401061nat, q()));
    t = fq_square(&t);
    proof { lemma_pow_m_mul(xv, 295462595252887249091401061nat, 295462595252887249091401061nat, q()); }
    assert(fq(t) == pow_m(xv, 590925190505774498182802122nat, q()));
    t = fq_mul(&t, x);
    proof { lemma_pow_m_mul_base(xv, 590925190505774498182802122nat, q()); }
    assert(fq(t) == pow_m(xv, 590925190505774498182802123nat, q()));
    t = fq_square(&t);
    proof { lemma_pow_m_mul(xv, 590925190505774498182802123nat, 590925190505774498182802123nat, q()); }
    assert(fq(t) == pow_m(xv, 1181850381011548996365604246nat, q()));
    t = fq_mul(&t, x);
    proof { lemma_pow_m_mul_base(xv, 1181850381011548996365604246nat, q()); }
    assert(fq(t) == pow_m(xv, 1181850381011548996365604247nat, q()));
    t = fq_square(&t);
    proof { lemma_pow_m_mul(xv, 1181850381011548996365604247nat, 1181850381011548996365604247nat, q()); }
    assert(fq(t) == pow_m(xv, 2363700762023097992731208494nat, q()));
    t = fq_mul(&t, x);
    proof { lemma_pow_m_mul_base(xv, 2363700762023097992731208494nat, q()); }
    assert(fq(t) == pow_m(xv, 2363700762023097992731208495nat, q()));
    t = fq_square(&t);
    proof { lemma_pow_m_mul(xv, 2363700762023097992731208495nat, 2363700762023097992731208495nat, q()); }
    assert(fq(t) == pow_m(xv, 4727401524046195985462416990nat, q()));
    t = fq_square(&t);
    proof { lemma_pow_m_mul(xv, 4727401524046195985462416990nat, 4727401524046195985462416990nat, q()); }
    assert(fq(t) == pow_m(xv, 9454803048092391970924833980nat, q()));
    t = fq_mul(&t, x);
    proof { lemma_pow_m_mul_base(xv, 9454803048092391970924833980nat, q()); }
    assert(fq(t) == pow_m(xv, 9454803048092391970924833981nat, q()));
    t = fq_square(&t);
    proof { lemma_pow_m_mul(xv, 9454803048092391970924833981nat, 9454803048092391970924833981nat, q()); }
    assert(fq(t) == pow_m(xv, 18909606096184783941849667962nat, q()));
    t = fq_square(&t);
    proof { lemma_pow_m_mul(xv, 18909606096184783941849667962nat, 18909606096184783941849667962nat, q()); }
    assert(fq(t) == pow_m(xv, 37819212192369567883699335924nat, q()));
    t = fq_mul(&t, x);
    proof { lemma_pow_m_mul_base(xv, 37819212192369567883699335924nat, q()); }
    assert(fq(t) == pow_m(xv, 37819212192369567883699335925nat, q()));
    t = fq_square(&t);
    proof { lemma_pow_m_mul(xv, 37819212192369567883699335925nat, 37819212192369567883699335925nat, q()); }
    assert(fq(t) == pow_m(xv, 75638424384739135767398671850nat, q()));
    t = fq_square(&t);
    proof { lemma_pow_m_mul(xv, 75638424384739135767398671850nat, 75638424384739135767398671850nat, q()); }
    assert(fq(t) == pow_m(xv, 151276848769478271534797343700nat, q()));
    t = fq_mul(&t, x);
    proof { lemma_pow_m_mul_base(xv, 151276848769478271534797343700nat, q()); }
    assert(fq(t) == pow_m(xv, 151276848769478271534797343701nat, q()));
    t = fq_square(&t);
    proof { lemma_pow_m_mul(xv, 151276848769478271534797343701nat, 151276848769478271534797343701nat, q()); }
    assert(fq(t) == pow_m(xv, 302553697538956543069594687402nat, q()));
    t = fq_square(&t);
    proof { lemma_pow_m_mul(xv, 302553697538956543069594687402nat, 302553697538956543069594687402nat, q()); }
    assert(fq(t) == pow_m(xv, 605107395077913086139189374804nat, q()));
    t = fq_square(&t);
    proof { lemma_pow_m_mul(xv, 605107395077913086139189374804nat, 605107395077913086139189374804nat, q()); }
    assert(fq(t) == pow_m(xv, 1210214790155826172278378749608nat, q()));
    t = fq_square(&t);
    proof { lemma_pow_m_mul(xv, 1210214790155826172278378749608nat, 1210214790155826172278378749608nat, q()); }
    assert(fq(t) == pow_m(xv, 2420429580311652344556757499216nat, q()));
    t = fq_mul(&t, x);
    proof { lemma_pow_m_mul_base(xv, 2420429580311652344556757499216nat, q()); }
    assert(fq(t) == pow_m(xv, 2420429580311652344556757499217nat, q()));
    t = fq_square(&t);
    proof { lemma_pow_m_mul(xv, 2420429580311652344556757499217nat, 2420429580311652344556757499217nat, q()); }
    assert(fq(t) == pow_m(xv, 4840859160623304689113514998434nat, q()));
    t = fq_square(&t);
    proof { lemma_pow_m_mul(xv, 4840859160623304689113514998434nat, 4840859160623304689113514998434nat, q()); }
    assert(fq(t) == pow_m(xv, 9681718321246609378227029996868nat, q()));
    t = fq_square(&t);
    proof { lemma_pow_m_mul(xv, 9681718321246609378227029996868nat, 9681718321246609378227029996868nat, q()); }
    assert(fq(t) == pow_m(xv, 19363436642493218756454059993736nat, q()));
    t = fq_square(&t);
    proof { lemma_pow_m_mul(xv, 19363436642493218756454059993736nat, 19363436642493218756454059993736nat, q()); }
    assert(fq(t) == pow_m(xv, 38726873284986437512908119987472nat, q()));
    t = fq_mul(&t, x);
    proof { lemma_pow_m_mul_base(xv, 38726873284986437512908119987472nat, q()); }
    assert(fq(t) == pow_m(xv, 38726873284986437512908119987473nat, q()));
    t = fq_square(&t);
    proof { lemma_pow_m_mul(xv, 38726873284986437512908119987473nat, 38726873284986437512908119987473nat, q()); }
    assert(fq(t) == pow_m(xv, 77453746569972875025816239974946nat, q()));
    t = fq_square(&t);
    proof { lemma_pow_m_mul(xv, 77453746569972875025816239974946nat, 77453746569972875025816239974946nat, q()); }
    assert(fq(t) == pow_m(xv, 154907493139945750051632479949892nat, q()));
    t = fq_mul(&t, x);
    proof { lemma_pow_m_mul_base(xv, 154907493139945750051632479949892nat, q()); }
    assert(fq(t) == pow_m(xv, 154907493139945750051632479949893nat, q()));
    t = fq_square(&t);
    proof { lemma_pow_m_mul(xv, 154907493139945750051632479949893nat, 154907493139945750051632479949893nat, q()); }
    assert(fq(t) == pow_m(xv, 309814986279891500103264959899786nat, q()));
    t = fq_square(&t);
    proof { lemma_pow_m_mul(xv, 309814986279891500103264959899786nat, 309814986279891500103264959899786nat, q()); }
    assert(fq(t) == pow_m(xv, 619629972559783000206529919799572nat, q()));
    t = fq_mul(&t, x);
    proof { lemma_pow_m_mul_base(xv, 619629972559783000206529919799572nat, q()); }
    assert(fq(t) == pow_m(xv, 619629972559783000206529919799573nat, q()));
    t
}

/// One stage of the square-and-multiply scan of the exponent.
fn scan_stage_3(x: &Felt, t: Felt) -> (r: Felt)
    requires
        fq(t) == pow_m(fq(*x), 619629972559783000206529919799573nat, q()),
    ensures
        fq(r) == pow_m(fq(*x), 11162261254111317524978313728872867074653677655752nat, q()),
{
    let ghost xv: int = fq(*x);
    let mut t = t;
    t = fq_square(&t);
    proof { lemma_pow_m_mul(xv, 619629972559783000206529919799573nat, 619629972559783000206529919799573nat, q()); }
    assert(fq(t) == pow_m(xv, 1239259945119566000413059839599146nat, q()));
    t = fq_square(&t);
    proof { lemma_pow_m_mul(xv, 1239259945119566000413059839599146nat, 1239259945119566000413059839599146nat, q()); }
    assert(fq(t) == pow_m(xv, 2478519890239132000826119679198292nat, q()));
    t = fq_mul(&t, x);
    proof { lemma_pow_m_mul_base(xv, 2478519890239132000826119679198292nat, q()); }
    assert(fq(t) == pow_m(xv, 2478519890239132000826119679198293nat, q()));
    t = fq_square(&t);
    proof { lemma_pow_m_mul(xv, 2478519890239132000826119679198293nat, 2478519890239132000826119679198293nat, q()); }
    assert(fq(t) == pow_m(xv, 4957039780478264001652239358396586nat, q()));
    t = fq_square(&t);
    proof { lemma_pow_m_mul(xv, 4957039780478264001652239358396586nat, 4957039780478264001652239358396586nat, q()); }
    assert(fq(t) == pow_m(xv, 9914079560956528003304478716793172nat, q()));
    t = fq_square(&t);
    proof { lemma_pow_m_mul(xv, 9914079560956528003304478716793172nat, 9914079560956528003304478716793172nat, q()); }
    assert(fq(t) == pow_m(xv, 19828159121913056006608957433586344nat, q()));
    t = fq_mul(&t, x);
    proof { lemma_pow_m_mul_base(xv, 19828159121913056006608957433586344nat, q()); }
    assert(fq(t) == pow_m(xv, 19828159121913056006608957433586345nat, q()));
    t = fq_square(&t);
    proof { lemma_pow_m_mul(xv, 19828159121913056006608957433586345nat, 19828159121913056006608957433586345nat, q()); }
    assert(fq(t) == pow_m(xv, 39656318243826112013217914867172690nat, q()));
    t = fq_mul(&t, x);
    proof { lemma_pow_m_mul_base(xv, 39656318243826112013217914867172690nat, q()); }
    assert(fq(t) == pow_m(xv, 39656318243826112013217914867172691nat, q()));
    t = fq_square(&t);
    proof { lemma_pow_m_mul(xv, 39656318243826112013217914867172691nat, 39656318243826112013217914867172691nat, q()); }
    assert(fq(t) == pow_m(xv, 79312636487652224026435829734345382nat, q()));
    t = fq_mul(&t, x);
    proof { lemma_pow_m_mul_base(xv, 79312636487652224026435829734345382nat, q()); }
    assert(fq(t) == pow_m(xv, 79312636487652224026435829734345383nat, q()));
    t = fq_square(&t);
    proof { lemma_pow_m_mul(xv, 79312636487652224026435829734345383nat, 79312636487652224026435829734345383nat, q()); }
    assert(fq(t) == pow_m(xv, 158625272975304448052871659468690766nat, q()));
    t = fq_square(&t);
    proof { lemma_pow_m_mul(xv, 158625272975304448052871659468690766nat, 158625272975304448052871659468690766nat, q()); }
    assert(fq(t) == pow_m(xv, 317250545950608896105743318937381532nat, q()));
    t = fq_mul(&t, x);
    proof { lemma_pow_m_mul_base(xv, 317250545950608896105743318937381532nat, q()); }
    assert(fq(t) == pow_m(xv, 317250545950608896105743318937381533nat, q()));
    t = fq_square(&t);
    proof { lemma_pow_m_mul(xv, 317250545950608896105743318937381533nat, 317250545950608896105743318937381533nat, q()); }
    assert(fq(t) == pow_m(xv, 634501091901217792211486637874763066nat, q()));
    t = fq_square(&t);
    proof { lemma_pow_m_mul(xv, 634501091901217792211486637874763066nat, 634501091901217792211486637874763066nat, q()); }
    assert(fq(t) == pow_m(xv, 1269002183802435584422973275749526132nat, q()));
    t = fq_square(&t);
    proof { lemma_pow_m_mul(xv, 1269002183802435584422973275749526132nat, 1269002183802435584422973275749526132nat, q()); }
    assert(fq(t) == pow_m(xv, 2538004367604871168845946551499052264nat, q()));
    t = fq_square(&t);
    proof { lemma_pow_m_mul(xv, 2538004367604871168845946551499052264nat, 2538004367604871168845946551499052264nat, q()); }
    assert(fq(t) == pow_m(xv, 5076008735209742337691893102998104528nat, q()));
    t = fq_mul(&t, x);
    proof { lemma_pow_m_mul_base(xv, 5076008735209742337691893102998104528nat, q()); }
    assert(fq(t) == pow_m(xv, 5076008735209742337691893102998104529nat, q()));
    t = fq_square(&t);
    proof { lemma_pow_m_mul(xv, 5076008735209742337691893102998104529nat, 5076008735209742337691893102998104529nat, q()); }
    assert(fq(t) == pow_m(xv, 10152017470419484675383786205996209058nat, q()));
    t = fq_mul(&t, x);
    proof { lemma_pow_m_mul_base(xv, 10152017470419484675383786205996209058nat, q()); }
    assert(fq(t) == pow_m(xv, 10152017470419484675383786205996209059nat, q()));
    t = fq_square(&t);
    proof { lemma_pow_m_mul(xv, 10152017470419484675383786205996209059nat, 10152017470419484675383786205996209059nat, q()); }
    assert(fq(t) == pow_m(xv, 20304034940838969350767572411992418118nat, q()));
    t = fq_square(&t);
    proof { lemma_pow_m_mul(xv, 20304034940838969350767572411992418118nat, 20304034940838969350767572411992418118nat, q()); }
    assert(fq(t) == pow_m(xv, 40608069881677938701535144823984836236nat, q()));
    t = fq_mul(&t, x);
    proof { lemma_pow_m_mul_base(xv, 40608069881677938701535144823984836236nat, q()); }
    assert(fq(t) == pow_m(xv, 40608069881677938701535144823984836237nat, q()));
    t = fq_square(&t);
    proof { lemma_pow_m_mul(xv, 40608069881677938701535144823984836237nat, 40608069881677938701535144823984836237nat, q()); }
    assert(fq(t) == pow_m(xv, 81216139763355877403070289647969672474nat, q()));
    t = fq_mul(&t, x);
    proof { lemma_pow_m_mul_base(xv, 81216139763355877403070289647969672474nat, q()); }
    assert(fq(t) == pow_m(xv, 81216139763355877403070289647969672475nat, q()));
    t = fq_square(&t);
    proof { lemma_pow_m_mul(xv, 81216139763355877403070289647969672475nat, 81216139763355877403070289647969672475nat, q()); }
    assert(fq(t) == pow_m(xv, 162432279526711754806140579295939344950nat, q()));
    t = fq_mul(&t, x);
    proof { lemma_pow_m_mul_base(xv, 162432279526711754806140579295939344950nat, q()); }
    assert(fq(t) == pow_m(xv, 162432279526711754806140579295939344951nat, q()));
    t = fq_square(&t);
    proof { lemma_pow_m_mul(xv, 162432279526711754806140579295939344951nat, 162432279526711754806140579295939344951nat, q()); }
    assert(fq(t) == pow_m(xv, 324864559053423509612281158591878689902nat, q()));
    t = fq_square(&t);
    proof { lemma_pow_m_mul(xv, 324864559053423509612281158591878689902nat, 324864559053423509612281158591878689902nat, q()); }
    assert(fq(t) == pow_m(xv, 649729118106847019224562317183757379804nat, q()));
    t = fq_mul(&t, x);
    proof { lemma_pow_m_mul_base(xv, 649729118106847019224562317183757379804nat, q()); }
    assert(fq(t) == pow_m(xv, 649729118106847019224562317183757379805nat, q()));
    t = fq_square(&t);
    proof { lemma_pow_m_mul(xv, 649729118106847019224562317183757379805nat, 649729118106847019224562317183757379805nat, q()); }
    assert(fq(t) == pow_m(xv, 1299458236213694038449124634367514759610nat, q()));
    t = fq_mul(&t, x);
    proof { lemma_pow_m_mul_base(xv, 1299458236213694038449124634367514759610nat, q()); }
    assert(fq(t) == pow_m(xv, 1299458236213694038449124634367514759611nat, q()));
    t = fq_square(&t);
    proof { lemma_pow_m_mul(xv, 1299458236213694038449124634367514759611nat, 1299458236213694038449124634367514759611nat, q()); }
    assert(fq(t) == pow_m(xv, 2598916472427388076898249268735029519222nat, q()));
    t = fq_square(&t);
    proof { lemma_pow_m_mul(xv, 2598916472427388076898249268735029519222nat, 2598916472427388076898249268735029519222nat, q()); }
    assert(fq(t) == pow_m(xv, 5197832944854776153796498537470059038444nat, q()));
    t = fq_square(&t);
    proof { lemma_pow_m_mul(xv, 5197832944854776153796498537470059038444nat, 5197832944854776153796498537470059038444nat, q()); }
    assert(fq(t) == pow_m(xv, 10395665889709552307592997074940118076888nat, q()));
    t = fq_square(&t);
    proof { lemma_pow_m_mul(xv, 10395665889709552307592997074940118076888nat, 10395665889709552307592997074940118076888nat, q()); }
    assert(fq(t) == pow_m(xv, 20791331779419104615185994149880236153776nat, q()));
    t = fq_mul(&t, x);
    proof { lemma_pow_m_mul_base(xv, 20791331779419104615185994149880236153776nat, q()); }
    assert(fq(t) == pow_m(xv, 20791331779419104615185994149880236153777nat, q()));
    t = fq_square(&t);
    proof { lemma_pow_m_mul(xv, 20791331779419104615185994149880236153777nat, 20791331779419104615185994149880236153777nat, q()); }
    assert(fq(t) == pow_m(xv, 41582663558838209230371988299760472307554nat, q()));
    t = fq_square(&t);
    proof { lemma_pow_m_mul(xv, 41582663558838209230371988299760472307554nat, 41582663558838209230371988299760472307554nat, q()); }
    assert(fq(t) == pow_m(xv, 83165327117676418460743976599520944615108nat, q()));
    t = fq_square(&t);
    proof { lemma_pow_m_mul(xv, 83165327117676418460743976599520944615108nat, 83165327117676418460743976599520944615108nat, q()); }
    assert(fq(t) == pow_m(xv, 166330654235352836921487953199041889230216nat, q()));
    t = fq_square(&t);
    proof { lemma_pow_m_mul(xv, 166330654235352836921487953199041889230216nat, 166330654235352836921487953199041889230216nat, q()); }
    assert(fq(t) == pow_m(xv, 332661308470705673842975906398083778460432nat, q()));
    t = fq_mul(&t, x);
    proof { lemma_pow_m_mul_base(xv, 332661308470705673842975906398083778460432nat, q()); }
    assert(fq(t) == pow_m(xv, 332661308470705673842975906398083778460433nat, q()));
    t = fq_square(&t);
    proof { lemma_pow_m_mul(xv, 332661308470705673842975906398083778460433nat, 332661308470705673842975906398083778460433nat, q()); }
    assert(fq(t) == pow_m(xv, 665322616941411347685951812796167556920866nat, q()));
    t = fq_square(&t);
    proof { lemma_pow_m_mul(xv, 665322616941411347685951812796167556920866nat, 665322616941411347685951812796167556920866nat, q()); }
    assert(fq(t) == pow_m(xv, 1330645233882822695371903625592335113841732nat, q()));
    t = fq_mul(&t, x);
    proof { lemma_pow_m_mul_base(xv, 1330645233882822695371903625592335113841732nat, q()); }
    assert(fq(t) == pow_m(xv, 1330645233882822695371903625592335113841733nat, q()));
    t = fq_square(&t);
    proof { lemma_pow_m_mul(xv, 1330645233882822695371903625592335113841733nat, 1330645233882822695371903625592335113841733nat, q()); }
    assert(fq(t) == pow_m(xv, 2661290467765645390743807251184670227683466nat, q()));
    t = fq_mul(&t, x);
    proof { lemma_pow_m_mul_base(xv, 2661290467765645390743807251184670227683466nat, q()); }
    assert(fq(t) == pow_m(xv, 2661290467765645390743807251184670227683467nat, q()));
    t = fq_square(&t);
    proof { lemma_pow_m_mul(xv, 2661290467765645390743807251184670227683467nat, 2661290467765645390743807251184670227683467nat, q()); }
    assert(fq(t) == pow_m(xv, 5322580935531290781487614502369340455366934nat, q()));
    t = fq_square(&t);
    proof { lemma_pow_m_mul(xv, 5322580935531290781487614502369340455366934nat, 5322580935531290781487614502369340455366934nat, q()); }
    assert(fq(t) == pow_m(xv, 10645161871062581562975229004738680910733868nat, q()));
    t = fq_mul(&t, x);
    proof { lemma_pow_m_mul_base(xv, 10645161871062581562975229004738680910733868nat, q()); }
    assert(fq(t) == pow_m(xv, 10645161871062581562975229004738680910733869nat, q()));
    t = fq_square(&t);
    proof { lemma_pow_m_mul(xv, 10645161871062581562975229004738680910733869nat, 10645161871062581562975229004738680910733869nat, q()); }
    assert(fq(t) == pow_m(xv, 21290323742125163125950458009477361821467738nat, q()));
    t = fq_square(&t);
    proof { lemma_pow_m_mul(xv, 21290323742125163125950458009477361821467738nat, 21290323742125163125950458009477361821467738nat, q()); }
    assert(fq(t) == pow_m(xv, 42580647484250326251900916018954723642935476nat, q()));
    t = fq_square(&t);
    proof { lemma_pow_m_mul(xv, 42580647484250326251900916018954723642935476nat, 42580647484250326251900916018954723642935476nat, q()); }
    assert(fq(t) == pow_m(xv, 85161294968500652503801832037909447285870952nat, q()));
    t = fq_mul(&t, x);
    proof { lemma_pow_m_mul_base(xv, 85161294968500652503801832037909447285870952nat, q()); }
    assert(fq(t) == pow_m(xv, 85161294968500652503801832037909447285870953nat, q()));
    t = fq_square(&t);
    proof { lemma_pow_m_mul(xv, 85161294968500652503801832037909447285870953nat, 85161294968500652503801832037909447285870953nat, q()); }
    assert(fq(t) == pow_m(xv, 170322589937001305007603664075818894571741906nat, q()));
    t = fq_mul(&t, x);
    proof { lemma_pow_m_mul_base(xv, 170322589937001305007603664075818894571741906nat, q()); }
    assert(fq(t) == pow_m(xv, 170322589937001305007603664075818894571741907nat, q()));
    t = fq_square(&t);
    proof { lemma_pow_m_mul(xv, 170322589937001305007603664075818894571741907nat, 170322589937001305007603664075818894571741907nat, q()); }
    assert(fq(t) == pow_m(xv, 340645179874002610015207328151637789143483814nat, q()));
    t = fq_mul(&t, x);
    proof { lemma_pow_m_mul_base(xv, 340645179874002610015207328151637789143483814nat, q()); }
    assert(fq(t) == pow_m(xv, 340645179874002610015207328151637789143483815nat, q()));
    t = fq_square(&t);
    proof { lemma_pow_m_mul(xv, 340645179874002610015207328151637789143483815nat, 340645179874002610015207328151637789143483815nat, q()); }
    assert(fq(t) == pow_m(xv, 681290359748005220030414656303275578286967630nat, q()));
    t = fq_square(&t);
    proof { lemma_pow_m_mul(xv, 681290359748005220030414656303275578286967630nat, 681290359748005220030414656303275578286967630nat, q()); }
    assert(fq(t) == pow_m(xv, 1362580719496010440060829312606551156573935260nat, q()));
    t = fq_square(&t);
    proof { lemma_pow_m_mul(xv, 1362580719496010440060829312606551156573935260nat, 1362580719496010440060829312606551156573935260nat, q()); }
    assert(fq(t) == pow_m(xv, 2725161438992020880121658625213102313147870520nat, q()));
    t = fq_mul(&t, x);
    proof { lemma_pow_m_mul_base(xv, 2725161438992020880121658625213102313147870520nat, q()); }
    assert(fq(t) == pow_m(xv, 2725161438992020880121658625213102313147870521nat, q()));
    t = fq_square(&t);
    proof { lemma_pow_m_mul(xv, 2725161438992020880121658625213102313147870521nat, 2725161438992020880121658625213102313147870521nat, q()); }
    assert(fq(t) == pow_m(xv, 5450322877984041760243317250426204626295741042nat, q()));
    t = fq_square(&t);
    proof { lemma_pow_m_mul(xv, 5450322877984041760243317250426204626295741042nat, 5450322877984041760243317250426204626295741042nat, q()); }
    assert(fq(t) == pow_m(xv, 10900645755968083520486634500852409252591482084nat, q()));
    t = fq_mul(&t, x);
    proof { lemma_pow_m_mul_base(xv, 10900645755968083520486634500852409252591482084nat, q()); }
    assert(fq(t) == pow_m(xv, 10900645755968083520486634500852409252591482085nat, q()));
    t = fq_square(&t);
    proof { lemma_pow_m_mul(xv, 10900645755968083520486634500852409252591482085nat, 10900645755968083520486634500852409252591482085nat, q()); }
    assert(fq(t) == pow_m(xv, 21801291511936167040973269001704818505182964170nat, q()));
    t = fq_mul(&t, x);
    proof { lemma_pow_m_mul_base(xv, 21801291511936167040973269001704818505182964170nat, q()); }
    assert(fq(t) == pow_m(xv, 21801291511936167040973269001704818505182964171nat, q()));
    t = fq_square(&t);
    proof { lemma_pow_m_mul(xv, 21801291511936167040973269001704818505182964171nat, 21801291511936167040973269001704818505182964171nat, q()); }
    assert(fq(t) == pow_m(xv, 43602583023872334081946538003409637010365928342nat, q()));
    t = fq_square(&t);
    proof { lemma_pow_m_mul(xv, 43602583023872334081946538003409637010365928342nat, 43602583023872334081946538003409637010365928342nat, q()); }
    assert(fq(t) == pow_m(xv, 87205166047744668163893076006819274020731856684nat, q()));
    t = fq_mul(&t, x);
    proof { lemma_pow_m_mul_base(xv, 87205166047744668163893076006819274020731856684nat, q()); }
    assert(fq(t) == pow_m(xv, 87205166047744668163893076006819274020731856685nat, q()));
    t = fq_square(&t);
    proof { lemma_pow_m_mul(xv, 87205166047744668163893076006819274020731856685nat, 87205166047744668163893076006819274020731856685nat, q()); }
    assert(fq(t) == pow_m(xv, 174410332095489336327786152013638548041463713370nat, q()));
    t = fq_mul(&t, x);
    proof { lemma_pow_m_mul_base(xv, 174410332095489336327786152013638548041463713370nat, q()); }
    assert(fq(t) == pow_m(xv, 174410332095489336327786152013638548041463713371nat, q()));
    t = fq_square(&t);
    proof { lemma_pow_m_mul(xv, 174410332095489336327786152013638548041463713371nat, 174410332095489336327786152013638548041463713371nat, q()); }
    assert(fq(t) == pow_m(xv, 348820664190978672655572304027277096082927426742nat, q()));
    t = fq_square(&t);
    proof { lemma_pow_m_mul(xv, 348820664190978672655572304027277096082927426742nat, 348820664190978672655572304027277096082927426742nat, q()); }
    assert(fq(t) == pow_m(xv, 697641328381957345311144608054554192165854853484nat, q()));
    t = fq_square(&t);
    proof { lemma_pow_m_mul(xv, 697641328381957345311144608054554192165854853484nat, 697641328381957345311144608054554192165854853484nat, q()); }
    assert(fq(t) == pow_m(xv, 1395282656763914690622289216109108384331709706968nat, q()));
    t = fq_mul(&t, x);
    proof { lemma_pow_m_mul_base(xv, 1395282656763914690622289216109108384331709706968nat, q()); }
    assert(fq(t) == pow_m(xv, 1395282656763914690622289216109108384331709706969nat, q()));
    t = fq_square(&t);
    proof { lemma_pow_m_mul(xv, 1395282656763914690622289216109108384331709706969nat, 1395282656763914690622289216109108384331709706969nat, q()); }
    assert(fq(t) == pow_m(xv, 2790565313527829381244578432218216768663419413938nat, q()));
    t = fq_square(&t);
    proof { lemma_pow_m_mul(xv, 2790565313527829381244578432218216768663419413938nat, 2790565313527829381244578432218216768663419413938nat, q()); }
    assert(fq(t) == pow_m(xv, 5581130627055658762489156864436433537326838827876nat, q()));
    t = fq_square(&t);
    proof { lemma_pow_m_mul(xv, 5581130627055658762489156864436433537326838827876nat, 5581130627055658762489156864436433537326838827876nat, q()); }
    assert(fq(t) == pow_m(xv, 11162261254111317524978313728872867074653677655752nat, q()));
    t
}

/// One stage of the square-and-multiply scan of the exponent.
fn scan_stage_4(x: &Felt, t: Felt) -> (r: Felt)
    requires
        fq(t) == pow_m(fq(*x), 11162261254111317524978313728872867074653677655752nat, q()),
    ensures
        fq(r) == pow_m(fq(*x), 100540711249255709935148247180350377222246731208640762503461421614nat, q()),
{
    let ghost xv: int = fq(*x);
    let mut t = t;
    t = fq_mul(&t, x);
    proof { lemma_pow_m_mul_base(xv, 11162261254111317524978313728872867074653677655752nat, q()); }
    assert(fq(t) == pow_m(xv, 11162261254111317524978313728872867074653677655753nat, q()));
    t = fq_square(&t);
    proof { lemma_pow_m_mul(xv, 11162261254111317524978313728872867074653677655753nat, 11162261254111317524978313728872867074653677655753nat, q()); }
    assert(fq(t) == pow_m(xv, 22324522508222635049956627457745734149307355311506nat, q()));
    t = fq_square(&t);
    proof { lemma_pow_m_mul(xv, 22324522508222635049956627457745734149307355311506nat, 22324522508222635049956627457745734149307355311506nat, q()); }
    assert(fq(t) == pow_m(xv, 44649045016445270099913254915491468298614710623012nat, q()));
    t = fq_mul(&t, x);
    proof { lemma_pow_m_mul_base(xv, 44649045016445270099913254915491468298614710623012nat, q()); }
    assert(fq(t) == pow_m(xv, 44649045016445270099913254915491468298614710623013nat, q()));
    t = fq_square(&t);
    proof { lemma_pow_m_mul(xv, 44649045016445270099913254915491468298614710623013nat, 44649045016445270099913254915491468298614710623013nat, q()); }
    assert(fq(t) == pow_m(xv, 89298090032890540199826509830982936597229421246026nat, q()));
    t = fq_mul(&t, x);
    proof { lemma_pow_m_mul_base(xv, 89298090032890540199826509830982936597229421246026nat, q()); }
    assert(fq(t) == pow_m(xv, 89298090032890540199826509830982936597229421246027nat, q()));
    t = fq_square(&t);
    proof { lemma_pow_m_mul(xv, 89298090032890540199826509830982936597229421246027nat, 89298090032890540199826509830982936597229421246027nat, q()); }
    assert(fq(t) == pow_m(xv, 178596180065781080399653019661965873194458842492054nat, q()));
    t = fq_mul(&t, x);
    proof { lemma_pow_m_mul_base(xv, 178596180065781080399653019661965873194458842492054nat, q()); }
    assert(fq(t) == pow_m(xv, 178596180065781080399653019661965873194458842492055nat, q()));
    t = fq_square(&t);
    proof { lemma_pow_m_mul(xv, 178596180065781080399653019661965873194458842492055nat, 178596180065781080399653019661965873194458842492055nat, q()); }
    assert(fq(t) == pow_m(xv, 357192360131562160799306039323931746388917684984110nat, q()));
    t = fq_square(&t);
    proof { lemma_pow_m_mul(xv, 357192360131562160799306039323931746388917684984110nat, 357192360131562160799306039323931746388917684984110nat, q()); }
    assert(fq(t) == pow_m(xv, 714384720263124321598612078647863492777835369968220nat, q()));
    t = fq_mul(&t, x);
    proof { lemma_pow_m_mul_base(xv, 714384720263124321598612078647863492777835369968220nat, q()); }
    assert(fq(t) == pow_m(xv, 714384720263124321598612078647863492777835369968221nat, q()));
    t = fq_square(&t);
    proof { lemma_pow_m_mul(xv, 714384720263124321598612078647863492777835369968221nat, 714384720263124321598612078647863492777835369968221nat, q()); }
    assert(fq(t) == pow_m(xv, 1428769440526248643197224157295726985555670739936442nat, q()));
    t = fq_square(&t);
    proof { lemma_pow_m_mul(xv, 1428769440526248643197224157295726985555670739936442nat, 1428769440526248643197224157295726985555670739936442nat, q()); }
    assert(fq(t) == pow_m(xv, 2857538881052497286394448314591453971111341479872884nat, q()));
    t = fq_square(&t);
    proof { lemma_pow_m_mul(xv, 2857538881052497286394448314591453971111341479872884nat, 2857538881052497286394448314591453971111341479872884nat, q()); }
    assert(fq(t) == pow_m(xv, 5715077762104994572788896629182907942222682959745768nat, q()));
    t = fq_square(&t);
    proof { lemma_pow_m_mul(xv, 5715077762104994572788896629182907942222682959745768nat, 5715077762104994572788896629182907942222682959745768nat, q()); }
    assert(fq(t) == pow_m(xv, 11430155524209989145577793258365815884445365919491536nat, q()));
    t = fq_mul(&t, x);
    proof { lemma_pow_m_mul_base(xv, 11430155524209989145577793258365815884445365919491536nat, q()); }
    assert(fq(t) == pow_m(xv, 11430155524209989145577793258365815884445365919491537nat, q()));
    t = fq_square(&t);
    proof { lemma_pow_m_mul(xv, 11430155524209989145577793258365815884445365919491537nat, 11430155524209989145577793258365815884445365919491537nat, q()); }
    assert(fq(t) == pow_m(xv, 22860311048419978291155586516731631768890731838983074nat, q()));
    t = fq_square(&t);
    proof { lemma_pow_m_mul(xv, 22860311048419978291155586516731631768890731838983074nat, 22860311048419978291155586516731631768890731838983074nat, q()); }
    assert(fq(t) == pow_m(xv, 45720622096839956582311173033463263537781463677966148nat, q()));
    t = fq_mul(&t, x);
    proof { lemma_pow_m_mul_base(xv, 45720622096839956582311173033463263537781463677966148nat, q()); }
    assert(fq(t) == pow_m(xv, 45720622096839956582311173033463263537781463677966149nat, q()));
    t = fq_square(&t);
    proof { lemma_pow_m_mul(xv, 45720622096839956582311173033463263537781463677966149nat, 45720622096839956582311173033463263537781463677966149nat, q()); }
    assert(fq(t) == pow_m(xv, 91441244193679913164622346066926527075562927355932298nat, q()));
    t = fq_mul(&t, x);
    proof { lemma_pow_m_mul_base(xv, 91441244193679913164622346066926527075562927355932298nat, q()); }
    assert(fq(t) == pow_m(xv, 91441244193679913164622346066926527075562927355932299nat, q()));
    t = fq_square(&t);
    proof { lemma_pow_m_mul(xv, 91441244193679913164622346066926527075562927355932299nat, 91441244193679913164622346066926527075562927355932299nat, q()); }
    assert(fq(t) == pow_m(xv, 182882488387359826329244692133853054151125854711864598nat, q()));
    t = fq_mul(&t, x);
    proof { lemma_pow_m_mul_base(xv, 182882488387359826329244692133853054151125854711864598nat, q()); }
    assert(fq(t) == pow_m(xv, 182882488387359826329244692133853054151125854711864599nat, q()));
    t = fq_square(&t);
    proof { lemma_pow_m_mul(xv, 182882488387359826329244692133853054151125854711864599nat, 182882488387359826329244692133853054151125854711864599nat, q()); }
    assert(fq(t) == pow_m(xv, 365764976774719652658489384267706108302251709423729198nat, q()));
    t = fq_square(&t);
    proof { lemma_pow_m_mul(xv, 365764976774719652658489384267706108302251709423729198nat, 365764976774719652658489384267706108302251709423729198nat, q()); }
    assert(fq(t) == pow_m(xv, 731529953549439305316978768535412216604503418847458396nat, q()));
    t = fq_mul(&t, x);
    proof { lemma_pow_m_mul_base(xv, 731529953549439305316978768535412216604503418847458396nat, q()); }
    assert(fq(t) == pow_m(xv, 731529953549439305316978768535412216604503418847458397nat, q()));
    t = fq_square(&t);
    proof { lemma_pow_m_mul(xv, 731529953549439305316978768535412216604503418847458397nat, 731529953549439305316978768535412216604503418847458397nat, q()); }
    assert(fq(t) == pow_m(xv, 1463059907098878610633957537070824433209006837694916794nat, q()));
    t = fq_square(&t);
    proof { lemma_pow_m_mul(xv, 1463059907098878610633957537070824433209006837694916794nat, 1463059907098878610633957537070824433209006837694916794nat, q()); }
    assert(fq(t) == pow_m(xv, 2926119814197757221267915074141648866418013675389833588nat, q()));
    t = fq_square(&t);
    proof { lemma_pow_m_mul(xv, 2926119814197757221267915074141648866418013675389833588nat, 2926119814197757221267915074141648866418013675389833588nat, q()); }
    assert(fq(t) == pow_m(xv, 5852239628395514442535830148283297732836027350779667176nat, q()));
    t = fq_square(&t);
    proof { lemma_pow_m_mul(xv, 5852239628395514442535830148283297732836027350779667176nat, 5852239628395514442535830148283297732836027350779667176nat, q()); }
    assert(fq(t) == pow_m(xv, 11704479256791028885071660296566595465672054701559334352nat, q()));
    t = fq_mul(&t, x);
    proof { lemma_pow_m_mul_base(xv, 11704479256791028885071660296566595465672054701559334352nat, q()); }
    assert(fq(t) == pow_m(xv, 11704479256791028885071660296566595465672054701559334353nat, q()));
    t = fq_square(&t);
    proof { lemma_pow_m_mul(xv, 11704479256791028885071660296566595465672054701559334353nat, 11704479256791028885071660296566595465672054701559334353nat, q()); }
    assert(fq(t) == pow_m(xv, 23408958513582057770143320593133190931344109403118668706nat, q()));
    t = fq_square(&t);
    proof { lemma_pow_m_mul(xv, 23408958513582057770143320593133190931344109403118668706nat, 23408958513582057770143320593133190931344109403118668706nat, q()); }
    assert(fq(t) == pow_m(xv, 46817917027164115540286641186266381862688218806237337412nat, q()));
    t = fq_mul(&t, x);
    proof { lemma_pow_m_mul_base(xv, 46817917027164115540286641186266381862688218806237337412nat, q()); }
    assert(fq(t) == pow_m(xv, 46817917027164115540286641186266381862688218806237337413nat, q()));
    t = fq_square(&t);
    proof { lemma_pow_m_mul(xv, 46817917027164115540286641186266381862688218806237337413nat, 46817917027164115540286641186266381862688218806237337413nat, q()); }
    assert(fq(t) == pow_m(xv, 93635834054328231080573282372532763725376437612474674826nat, q()));
    t = fq_mul(&t, x);
    proof { lemma_pow_m_mul_base(xv, 93635834054328231080573282372532763725376437612474674826nat, q()); }
    assert(fq(t) == pow_m(xv, 93635834054328231080573282372532763725376437612474674827nat, q()));
    t = fq_square(&t);
    proof { lemma_pow_m_mul(xv, 93635834054328231080573282372532763725376437612474674827nat, 93635834054328231080573282372532763725376437612474674827nat, q()); }
    assert(fq(t) == pow_m(xv, 187271668108656462161146564745065527450752875224949349654nat, q()));
    t = fq_mul(&t, x);
    proof { lemma_pow_m_mul_base(xv, 187271668108656462161146564745065527450752875224949349654nat, q()); }
    assert(fq(t) == pow_m(xv, 187271668108656462161146564745065527450752875224949349655nat, q()));
    t = fq_square(&t);
    proof { lemma_pow_m_mul(xv, 187271668108656462161146564745065527450752875224949349655nat, 187271668108656462161146564745065527450752875224949349655nat, q()); }
    assert(fq(t) == pow_m(xv, 374543336217312924322293129490131054901505750449898699310nat, q()));
    t = fq_mul(&t, x);
    proof { lemma_pow_m_mul_base(xv, 374543336217312924322293129490131054901505750449898699310nat, q()); }
    assert(fq(t) == pow_m(xv, 374543336217312924322293129490131054901505750449898699311nat, q()));
    t = fq_square(&t);
    proof { lemma_pow_m_mul(xv, 374543336217312924322293129490131054901505750449898699311nat, 374543336217312924322293129490131054901505750449898699311nat, q()); }
    assert(fq(t) == pow_m(xv, 749086672434625848644586258980262109803011500899797398622nat, q()));
    t = fq_square(&t);
    proof { lemma_pow_m_mul(xv, 749086672434625848644586258980262109803011500899797398622nat, 749086672434625848644586258980262109803011500899797398622nat, q()); }
    assert(fq(t) == pow_m(xv, 1498173344869251697289172517960524219606023001799594797244nat, q()));
    t = fq_mul(&t, x);
    proof { lemma_pow_m_mul_base(xv, 1498173344869251697289172517960524219606023001799594797244nat, q()); }
    assert(fq(t) == pow_m(xv, 1498173344869251697289172517960524219606023001799594797245nat, q()));
    t = fq_square(&t);
    proof { lemma_pow_m_mul(xv, 1498173344869251697289172517960524219606023001799594797245nat, 1498173344869251697289172517960524219606023001799594797245nat, q()); }
    assert(fq(t) == pow_m(xv, 2996346689738503394578345035921048439212046003599189594490nat, q()));
    t = fq_mul(&t, x);
    proof { lemma_pow_m_mul_base(xv, 2996346689738503394578345035921048439212046003599189594490nat, q()); }
    assert(fq(t) == pow_m(xv, 2996346689738503394578345035921048439212046003599189594491nat, q()));
    t = fq_square(&t);
    proof { lemma_pow_m_mul(xv, 2996346689738503394578345035921048439212046003599189594491nat, 2996346689738503394578345035921048439212046003599189594491nat, q()); }
    assert(fq(t) == pow_m(xv, 5992693379477006789156690071842096878424092007198379188982nat, q()));
    t = fq_square(&t);
    proof { lemma_pow_m_mul(xv, 5992693379477006789156690071842096878424092007198379188982nat, 5992693379477006789156690071842096878424092007198379188982nat, q()); }
    assert(fq(t) == pow_m(xv, 11985386758954013578313380143684193756848184014396758377964nat, q()));
    t = fq_square(&t);
    proof { lemma_pow_m_mul(xv, 11985386758954013578313380143684193756848184014396758377964nat, 11985386758954013578313380143684193756848184014396758377964nat, q()); }
    assert(fq(t) == pow_m(xv, 23970773517908027156626760287368387513696368028793516755928nat, q()));
    t = fq_mul(&t, x);
    proof { lemma_pow_m_mul_base(xv, 23970773517908027156626760287368387513696368028793516755928nat, q()); }
    assert(fq(t) == pow_m(xv, 23970773517908027156626760287368387513696368028793516755929nat, q()));
    t = fq_square(&t);
    proof { lemma_pow_m_mul(xv, 23970773517908027156626760287368387513696368028793516755929nat, 23970773517908027156626760287368387513696368028793516755929nat, q()); }
    assert(fq(t) == pow_m(xv, 47941547035816054313253520574736775027392736057587033511858nat, q()));
    t = fq_square(&t);
    proof { lemma_pow_m_mul(xv, 47941547035816054313253520574736775027392736057587033511858nat, 47941547035816054313253520574736775027392736057587033511858nat, q()); }
    assert(fq(t) == pow_m(xv, 95883094071632108626507041149473550054785472115174067023716nat, q()));
    t = fq_mul(&t, x);
    proof { lemma_pow_m_mul_base(xv, 95883094071632108626507041149473550054785472115174067023716nat, q()); }
    assert(fq(t) == pow_m(xv, 95883094071632108626507041149473550054785472115174067023717nat, q()));
    t = fq_square(&t);
    proof { lemma_pow_m_mul(xv, 95883094071632108626507041149473550054785472115174067023717nat, 95883094071632108626507041149473550054785472115174067023717nat, q()); }
    assert(fq(t) == pow_m(xv, 191766188143264217253014082298947100109570944230348134047434nat, q()));
    t = fq_square(&t);
    proof { lemma_pow_m_mul(xv, 191766188143264217253014082298947100109570944230348134047434nat, 191766188143264217253014082298947100109570944230348134047434nat, q()); }
    assert(fq(t) == pow_m(xv, 383532376286528434506028164597894200219141888460696268094868nat, q()));
    t = fq_mul(&t, x);
    proof { lemma_pow_m_mul_base(xv, 383532376286528434506028164597894200219141888460696268094868nat, q()); }
    assert(fq(t) == pow_m(xv, 383532376286528434506028164597894200219141888460696268094869nat, q()));
    t = fq_square(&t);
    proof { lemma_pow_m_mul(xv, 383532376286528434506028164597894200219141888460696268094869nat, 383532376286528434506028164597894200219141888460696268094869nat, q()); }
    assert(fq(t) == pow_m(xv, 767064752573056869012056329195788400438283776921392536189738nat, q()));
    t = fq_square(&t);
    proof { lemma_pow_m_mul(xv, 767064752573056869012056329195788400438283776921392536189738nat, 767064752573056869012056329195788400438283776921392536189738nat, q()); }
    assert(fq(t) == pow_m(xv, 1534129505146113738024112658391576800876567553842785072379476nat, q()));
    t = fq_mul(&t, x);
    proof { lemma_pow_m_mul_base(xv, 1534129505146113738024112658391576800876567553842785072379476nat, q()); }
    assert(fq(t) == pow_m(xv, 1534129505146113738024112658391576800876567553842785072379477nat, q()));
    t = fq_square(&t);
    proof { lemma_pow_m_mul(xv, 1534129505146113738024112658391576800876567553842785072379477nat, 1534129505146113738024112658391576800876567553842785072379477nat, q()); }
    assert(fq(t) == pow_m(xv, 3068259010292227476048225316783153601753135107685570144758954nat, q()));
    t = fq_square(&t);
    proof { lemma_pow_m_mul(xv, 3068259010292227476048225316783153601753135107685570144758954nat, 3068259010292227476048225316783153601753135107685570144758954nat, q()); }
    assert(fq(t) == pow_m(xv, 6136518020584454952096450633566307203506270215371140289517908nat, q()));
    t = fq_mul(&t, x);
    proof { lemma_pow_m_mul_base(xv, 6136518020584454952096450633566307203506270215371140289517908nat, q()); }
    assert(fq(t) == pow_m(xv, 6136518020584454952096450633566307203506270215371140289517909nat, q()));
    t = fq_square(&t);
    proof { lemma_pow_m_mul(xv, 6136518020584454952096450633566307203506270215371140289517909nat, 6136518020584454952096450633566307203506270215371140289517909nat, q()); }
    assert(fq(t) == pow_m(xv, 12273036041168909904192901267132614407012540430742280579035818nat, q()));
    t = fq_square(&t);
    proof { lemma_pow_m_mul(xv, 12273036041168909904192901267132614407012540430742280579035818nat, 12273036041168909904192901267132614407012540430742280579035818nat, q()); }
    assert(fq(t) == pow_m(xv, 24546072082337819808385802534265228814025080861484561158071636nat, q()));
    t = fq_square(&t);
    proof { lemma_pow_m_mul(xv, 24546072082337819808385802534265228814025080861484561158071636nat, 24546072082337819808385802534265228814025080861484561158071636nat, q()); }
    assert(fq(t) == pow_m(xv, 49092144164675639616771605068530457628050161722969122316143272nat, q()));
    t = fq_square(&t);
    proof { lemma_pow_m_mul(xv, 49092144164675639616771605068530457628050161722969122316143272nat, 49092144164675639616771605068530457628050161722969122316143272nat, q()); }
    assert(fq(t) == pow_m(xv, 98184288329351279233543210137060915256100323445938244632286544nat, q()));
    t = fq_square(&t);
    proof { lemma_pow_m_mul(xv, 98184288329351279233543210137060915256100323445938244632286544nat, 98184288329351279233543210137060915256100323445938244632286544nat, q()); }
    assert(fq(t) == pow_m(xv, 196368576658702558467086420274121830512200646891876489264573088nat, q()));
    t = fq_mul(&t, x);
    proof { lemma_pow_m_mul_base(xv, 196368576658702558467086420274121830512200646891876489264573088nat, q()); }
    assert(fq(t) == pow_m(xv, 196368576658702558467086420274121830512200646891876489264573089nat, q()));
    t = fq_square(&t);
    proof { lemma_pow_m_mul(xv, 196368576658702558467086420274121830512200646891876489264573089nat, 196368576658702558467086420274121830512200646891876489264573089nat, q()); }
    assert(fq(t) == pow_m(xv, 392737153317405116934172840548243661024401293783752978529146178nat, q()));
    t = fq_square(&t);
    proof { lemma_pow_m_mul(xv, 392737153317405116934172840548243661024401293783752978529146178nat, 392737153317405116934172840548243661024401293783752978529146178nat, q()); }
    assert(fq(t) == pow_m(xv, 785474306634810233868345681096487322048802587567505957058292356nat, q()));
    t = fq_square(&t);
    proof { lemma_pow_m_mul(xv, 785474306634810233868345681096487322048802587567505957058292356nat, 785474306634810233868345681096487322048802587567505957058292356nat, q()); }
    assert(fq(t) == pow_m(xv, 1570948613269620467736691362192974644097605175135011914116584712nat, q()));
    t = fq_square(&t);
    proof { lemma_pow_m_mul(xv, 1570948613269620467736691362192974644097605175135011914116584712nat, 1570948613269620467736691362192974644097605175135011914116584712nat, q()); }
    assert(fq(t) == pow_m(xv, 3141897226539240935473382724385949288195210350270023828233169424nat, q()));
    t = fq_mul(&t, x);
    proof { lemma_pow_m_mul_base(xv, 3141897226539240935473382724385949288195210350270023828233169424nat, q()); }
    assert(fq(t) == pow_m(xv, 3141897226539240935473382724385949288195210350270023828233169425nat, q()));
    t = fq_square(&t);
    proof { lemma_pow_m_mul(xv, 3141897226539240935473382724385949288195210350270023828233169425nat, 3141897226539240935473382724385949288195210350270023828233169425nat, q()); }
    assert(fq(t) == pow_m(xv, 6283794453078481870946765448771898576390420700540047656466338850nat, q()));
    t = fq_square(&t);
    proof { lemma_pow_m_mul(xv, 6283794453078481870946765448771898576390420700540047656466338850nat, 6283794453078481870946765448771898576390420700540047656466338850nat, q()); }
    assert(fq(t) == pow_m(xv, 12567588906156963741893530897543797152780841401080095312932677700nat, q()));
    t = fq_mul(&t, x);
    proof { lemma_pow_m_mul_base(xv, 12567588906156963741893530897543797152780841401080095312932677700nat, q()); }
    assert(fq(t) == pow_m(xv, 12567588906156963741893530897543797152780841401080095312932677701nat, q()));
    t = fq_square(&t);
    proof { lemma_pow_m_mul(xv, 12567588906156963741893530897543797152780841401080095312932677701nat, 12567588906156963741893530897543797152780841401080095312932677701nat, q()); }
    assert(fq(t) == pow_m(xv, 25135177812313927483787061795087594305561682802160190625865355402nat, q()));
    t = fq_mul(&t, x);
    proof { lemma_pow_m_mul_base(xv, 25135177812313927483787061795087594305561682802160190625865355402nat, q()); }
    assert(fq(t) == pow_m(xv, 25135177812313927483787061795087594305561682802160190625865355403nat, q()));
    t = fq_square(&t);
    proof { lemma_pow_m_mul(xv, 25135177812313927483787061795087594305561682802160190625865355403nat, 25135177812313927483787061795087594305561682802160190625865355403nat, q()); }
    assert(fq(t) == pow_m(xv, 50270355624627854967574123590175188611123365604320381251730710806nat, q()));
    t = fq_mul(&t, x);
    proof { lemma_pow_m_mul_base(xv, 50270355624627854967574123590175188611123365604320381251730710806nat, q()); }
    assert(fq(t) == pow_m(xv, 50270355624627854967574123590175188611123365604320381251730710807nat, q()));
    t = fq_square(&t);
    proof { lemma_pow_m_mul(xv, 50270355624627854967574123590175188611123365604320381251730710807nat, 50270355624627854967574123590175188611123365604320381251730710807nat, q()); }
    assert(fq(t) == pow_m(xv, 100540711249255709935148247180350377222246731208640762503461421614nat, q()));
    t
}

/// One stage of the square-and-multiply scan of the exponent.
fn scan_stage_5(x: &Felt, t: Felt) -> (r: Felt)
    requires
        fq(t) == pow_m(fq(*x), 100540711249255709935148247180350377222246731208640762503461421614nat, q()),
    ensures
        fq(r) == pow_m(fq(*x), 6909105067714121256203584040821265343853008546944234041037918282114243922851nat, q()),
{
    let ghost xv: int = fq(*x);
    let mut t = t;
    t = fq_square(&t);
    proof { lemma_pow_m_mul(xv, 100540711249255709935148247180350377222246731208640762503461421614nat, 100540711249255709935148247180350377222246731208640762503461421614nat, q()); }
    assert(fq(t) == pow_m(xv, 201081422498511419870296494360700754444493462417281525006922843228nat, q()));
    t = fq_mul(&t, x);
    proof { lemma_pow_m_mul_base(xv, 201081422498511419870296494360700754444493462417281525006922843228nat, q()); }
    assert(fq(t) == pow_m(xv, 201081422498511419870296494360700754444493462417281525006922843229nat, q()));
    t = fq_square(&t);
    proof { lemma_pow_m_mul(xv, 201081422498511419870296494360700754444493462417281525006922843229nat, 201081422498511419870296494360700754444493462417281525006922843229nat, q()); }
    assert(fq(t) == pow_m(xv, 402162844997022839740592988721401508888986924834563050013845686458nat, q()));
    t = fq_square(&t);
    proof { lemma_pow_m_mul(xv, 402162844997022839740592988721401508888986924834563050013845686458nat, 402162844997022839740592988721401508888986924834563050013845686458nat, q()); }
    assert(fq(t) == pow_m(xv, 804325689994045679481185977442803017777973849669126100027691372916nat, q()));
    t = fq_square(&t);
    proof { lemma_pow_m_mul(xv, 804325689994045679481185977442803017777973849669126100027691372916nat, 804325689994045679481185977442803017777973849669126100027691372916nat, q()); }
    assert(fq(t) == pow_m(xv, 1608651379988091358962371954885606035555947699338252200055382745832nat, q()));
    t = fq_square(&t);
    proof { lemma_pow_m_mul(xv, 1608651379988091358962371954885606035555947699338252200055382745832nat, 1608651379988091358962371954885606035555947699338252200055382745832nat, q()); }
    assert(fq(t) == pow_m(xv, 3217302759976182717924743909771212071111895398676504400110765491664nat, q()));
    t = fq_mul(&t, x);
    proof { lemma_pow_m_mul_base(xv, 3217302759976182717924743909771212071111895398676504400110765491664nat, q()); }
    assert(fq(t) == pow_m(xv, 3217302759976182717924743909771212071111895398676504400110765491665nat, q()));
    t = fq_square(&t);
    proof { lemma_pow_m_mul(xv, 3217302759976182717924743909771212071111895398676504400110765491665nat, 3217302759976182717924743909771212071111895398676504400110765491665nat, q()); }
    assert(fq(t) == pow_m(xv, 6434605519952365435849487819542424142223790797353008800221530983330nat, q()));
    t = fq_square(&t);
    proof { lemma_pow_m_mul(xv, 6434605519952365435849487819542424142223790797353008800221530983330nat, 6434605519952365435849487819542424142223790797353008800221530983330nat, q()); }
    assert(fq(t) == pow_m(xv, 12869211039904730871698975639084848284447581594706017600443061966660nat, q()));
    t = fq_mul(&t, x);
    proof { lemma_pow_m_mul_base(xv, 12869211039904730871698975639084848284447581594706017600443061966660nat, q()); }
    assert(fq(t) == pow_m(xv, 12869211039904730871698975639084848284447581594706017600443061966661nat, q()));
    t = fq_square(&t);
    proof { lemma_pow_m_mul(xv, 12869211039904730871698975639084848284447581594706017600443061966661nat, 12869211039904730871698975639084848284447581594706017600443061966661nat, q()); }
    assert(fq(t) == pow_m(xv, 25738422079809461743397951278169696568895163189412035200886123933322nat, q()));
    t = fq_mul(&t, x);
    proof { lemma_pow_m_mul_base(xv, 25738422079809461743397951278169696568895163189412035200886123933322nat, q()); }
    assert(fq(t) == pow_m(xv, 25738422079809461743397951278169696568895163189412035200886123933323nat, q()));
    t = fq_square(&t);
    proof { lemma_pow_m_mul(xv, 25738422079809461743397951278169696568895163189412035200886123933323nat, 25738422079809461743397951278169696568895163189412035200886123933323nat, q()); }
    assert(fq(t) == pow_m(xv, 51476844159618923486795902556339393137790326378824070401772247866646nat, q()));
    t = fq_mul(&t, x);
    proof { lemma_pow_m_mul_base(xv, 51476844159618923486795902556339393137790326378824070401772247866646nat, q()); }
    assert(fq(t) == pow_m(xv, 51476844159618923486795902556339393137790326378824070401772247866647nat, q()));
    t = fq_square(&t);
    proof { lemma_pow_m_mul(xv, 51476844159618923486795902556339393137790326378824070401772247866647nat, 51476844159618923486795902556339393137790326378824070401772247866647nat, q()); }
    assert(fq(t) == pow_m(xv, 102953688319237846973591805112678786275580652757648140803544495733294nat, q()));
    t = fq_square(&t);
    proof { lemma_pow_m_mul(xv, 102953688319237846973591805112678786275580652757648140803544495733294nat, 102953688319237846973591805112678786275580652757648140803544495733294nat, q()); }
    assert(fq(t) == pow_m(xv, 205907376638475693947183610225357572551161305515296281607088991466588nat, q()));
    t = fq_mul(&t, x);
    proof { lemma_pow_m_mul_base(xv, 205907376638475693947183610225357572551161305515296281607088991466588nat, q()); }
    assert(fq(t) == pow_m(xv, 205907376638475693947183610225357572551161305515296281607088991466589nat, q()));
    t = fq_square(&t);
    proof { lemma_pow_m_mul(xv, 205907376638475693947183610225357572551161305515296281607088991466589nat, 205907376638475693947183610225357572551161305515296281607088991466589nat, q()); }
    assert(fq(t) == pow_m(xv, 411814753276951387894367220450715145102322611030592563214177982933178nat, q()));
    t = fq_square(&t);
    proof { lemma_pow_m_mul(xv, 411814753276951387894367220450715145102322611030592563214177982933178nat, 411814753276951387894367220450715145102322611030592563214177982933178nat, q()); }
    assert(fq(t) == pow_m(xv, 823629506553902775788734440901430290204645222061185126428355965866356nat, q()));
    t = fq_square(&t);
    proof { lemma_pow_m_mul(xv, 823629506553902775788734440901430290204645222061185126428355965866356nat, 823629506553902775788734440901430290204645222061185126428355965866356nat, q()); }
    assert(fq(t) == pow_m(xv, 1647259013107805551577468881802860580409290444122370252856711931732712nat, q()));
    t = fq_square(&t);
    proof { lemma_pow_m_mul(xv, 1647259013107805551577468881802860580409290444122370252856711931732712nat, 1647259013107805551577468881802860580409290444122370252856711931732712nat, q()); }
    assert(fq(t) == pow_m(xv, 3294518026215611103154937763605721160818580888244740505713423863465424nat, q()));
    t = fq_mul(&t, x);
    proof { lemma_pow_m_mul_base(xv, 3294518026215611103154937763605721160818580888244740505713423863465424nat, q()); }
    assert(fq(t) == pow_m(xv, 3294518026215611103154937763605721160818580888244740505713423863465425nat, q()));
    t = fq_square(&t);
    proof { lemma_pow_m_mul(xv, 3294518026215611103154937763605721160818580888244740505713423863465425nat, 3294518026215611103154937763605721160818580888244740505713423863465425nat, q()); }
    assert(fq(t) == pow_m(xv, 6589036052431222206309875527211442321637161776489481011426847726930850nat, q()));
    t = fq_square(&t);
    proof { lemma_pow_m_mul(xv, 6589036052431222206309875527211442321637161776489481011426847726930850nat, 6589036052431222206309875527211442321637161776489481011426847726930850nat, q()); }
    assert(fq(t) == pow_m(xv, 13178072104862444412619751054422884643274323552978962022853695453861700nat, q()));
    t = fq_mul(&t, x);
    proof { lemma_pow_m_mul_base(xv, 13178072104862444412619751054422884643274323552978962022853695453861700nat, q()); }
    assert(fq(t) == pow_m(xv, 13178072104862444412619751054422884643274323552978962022853695453861701nat, q()));
    t = fq_square(&t);
    proof { lemma_pow_m_mul(xv, 13178072104862444412619751054422884643274323552978962022853695453861701nat, 13178072104862444412619751054422884643274323552978962022853695453861701nat, q()); }
    assert(fq(t) == pow_m(xv, 26356144209724888825239502108845769286548647105957924045707390907723402nat, q()));
    t = fq_mul(&t, x);
    proof { lemma_pow_m_mul_base(xv, 26356144209724888825239502108845769286548647105957924045707390907723402nat, q()); }
    assert(fq(t) == pow_m(xv, 26356144209724888825239502108845769286548647105957924045707390907723403nat, q()));
    t = fq_square(&t);
    proof { lemma_pow_m_mul(xv, 26356144209724888825239502108845769286548647105957924045707390907723403nat, 26356144209724888825239502108845769286548647105957924045707390907723403nat, q()); }
    assert(fq(t) == pow_m(xv, 52712288419449777650479004217691538573097294211915848091414781815446806nat, q()));
    t = fq_mul(&t, x);
    proof { lemma_pow_m_mul_base(xv, 52712288419449777650479004217691538573097294211915848091414781815446806nat, q()); }
    assert(fq(t) == pow_m(xv, 52712288419449777650479004217691538573097294211915848091414781815446807nat, q()));
    t = fq_square(&t);
    proof { lemma_pow_m_mul(xv, 52712288419449777650479004217691538573097294211915848091414781815446807nat, 52712288419449777650479004217691538573097294211915848091414781815446807nat, q()); }
    assert(fq(t) == pow_m(xv, 105424576838899555300958008435383077146194588423831696182829563630893614nat, q()));
    t = fq_square(&t);
    proof { lemma_pow_m_mul(xv, 105424576838899555300958008435383077146194588423831696182829563630893614nat, 105424576838899555300958008435383077146194588423831696182829563630893614nat, q()); }
    assert(fq(t) == pow_m(xv, 210849153677799110601916016870766154292389176847663392365659127261787228nat, q()));
    t = fq_mul(&t, x);
    proof { lemma_pow_m_mul_base(xv, 210849153677799110601916016870766154292389176847663392365659127261787228nat, q()); }
    assert(fq(t) == pow_m(xv, 210849153677799110601916016870766154292389176847663392365659127261787229nat, q()));
    t = fq_square(&t);
    proof { lemma_pow_m_mul(xv, 210849153677799110601916016870766154292389176847663392365659127261787229nat, 210849153677799110601916016870766154292389176847663392365659127261787229nat, q()); }
    assert(fq(t) == pow_m(xv, 421698307355598221203832033741532308584778353695326784731318254523574458nat, q()));
    t = fq_square(&t);
    proof { lemma_pow_m_mul(xv, 421698307355598221203832033741532308584778353695326784731318254523574458nat, 421698307355598221203832033741532308584778353695326784731318254523574458nat, q()); }
    assert(fq(t) == pow_m(xv, 843396614711196442407664067483064617169556707390653569462636509047148916nat, q()));
    t = fq_square(&t);
    proof { lemma_pow_m_mul(xv, 843396614711196442407664067483064617169556707390653569462636509047148916nat, 843396614711196442407664067483064617169556707390653569462636509047148916nat, q()); }
    assert(fq(t) == pow_m(xv, 1686793229422392884815328134966129234339113414781307138925273018094297832nat, q()));
    t = fq_square(&t);
    proof { lemma_pow_m_mul(xv, 1686793229422392884815328134966129234339113414781307138925273018094297832nat, 1686793229422392884815328134966129234339113414781307138925273018094297832nat, q()); }
    assert(fq(t) == pow_m(xv, 3373586458844785769630656269932258468678226829562614277850546036188595664nat, q()));
    t = fq_mul(&t, x);
    proof { lemma_pow_m_mul_base(xv, 3373586458844785769630656269932258468678226829562614277850546036188595664nat, q()); }
    assert(fq(t) == pow_m(xv, 3373586458844785769630656269932258468678226829562614277850546036188595665nat, q()));
    t = fq_square(&t);
    proof { lemma_pow_m_mul(xv, 3373586458844785769630656269932258468678226829562614277850546036188595665nat, 3373586458844785769630656269932258468678226829562614277850546036188595665nat, q()); }
    assert(fq(t) == pow_m(xv, 6747172917689571539261312539864516937356453659125228555701092072377191330nat, q()));
    t = fq_square(&t);
    proof { lemma_pow_m_mul(xv, 6747172917689571539261312539864516937356453659125228555701092072377191330nat, 6747172917689571539261312539864516937356453659125228555701092072377191330nat, q()); }
    assert(fq(t) == pow_m(xv, 13494345835379143078522625079729033874712907318250457111402184144754382660nat, q()));
    t = fq_mul(&t, x);
    proof { lemma_pow_m_mul_base(xv, 13494345835379143078522625079729033874712907318250457111402184144754382660nat, q()); }
    assert(fq(t) == pow_m(xv, 13494345835379143078522625079729033874712907318250457111402184144754382661nat, q()));
    t = fq_square(&t);
    proof { lemma_pow_m_mul(xv, 13494345835379143078522625079729033874712907318250457111402184144754382661nat, 13494345835379143078522625079729033874712907318250457111402184144754382661nat, q()); }
    assert(fq(t) == pow_m(xv, 26988691670758286157045250159458067749425814636500914222804368289508765322nat, q()));
    t = fq_mul(&t, x);
    proof { lemma_pow_m_mul_base(xv, 26988691670758286157045250159458067749425814636500914222804368289508765322nat, q()); }
    assert(fq(t) == pow_m(xv, 26988691670758286157045250159458067749425814636500914222804368289508765323nat, q()));
    t = fq_square(&t);
    proof { lemma_pow_m_mul(xv, 26988691670758286157045250159458067749425814636500914222804368289508765323nat, 26988691670758286157045250159458067749425814636500914222804368289508765323nat, q()); }
    assert(fq(t) == pow_m(xv, 53977383341516572314090500318916135498851629273001828445608736579017530646nat, q()));
    t = fq_mul(&t, x);
    proof { lemma_pow_m_mul_base(xv, 53977383341516572314090500318916135498851629273001828445608736579017530646nat, q()); }
    assert(fq(t) == pow_m(xv, 53977383341516572314090500318916135498851629273001828445608736579017530647nat, q()));
    t = fq_square(&t);
    proof { lemma_pow_m_mul(xv, 53977383341516572314090500318916135498851629273001828445608736579017530647nat, 53977383341516572314090500318916135498851629273001828445608736579017530647nat, q()); }
    assert(fq(t) == pow_m(xv, 107954766683033144628181000637832270997703258546003656891217473158035061294nat, q()));
    t = fq_square(&t);
    proof { lemma_pow_m_mul(xv, 107954766683033144628181000637832270997703258546003656891217473158035061294nat, 107954766683033144628181000637832270997703258546003656891217473158035061294nat, q()); }
    assert(fq(t) == pow_m(xv, 215909533366066289256362001275664541995406517092007313782434946316070122588nat, q()));
    t = fq_mul(&t, x);
    proof { lemma_pow_m_mul_base(xv, 215909533366066289256362001275664541995406517092007313782434946316070122588nat, q()); }
    assert(fq(t) == pow_m(xv, 215909533366066289256362001275664541995406517092007313782434946316070122589nat, q()));
    t = fq_square(&t);
    proof { lemma_pow_m_mul(xv, 215909533366066289256362001275664541995406517092007313782434946316070122589nat, 215909533366066289256362001275664541995406517092007313782434946316070122589nat, q()); }
    assert(fq(t) == pow_m(xv, 431819066732132578512724002551329083990813034184014627564869892632140245178nat, q()));
    t = fq_square(&t);
    proof { lemma_pow_m_mul(xv, 431819066732132578512724002551329083990813034184014627564869892632140245178nat, 431819066732132578512724002551329083990813034184014627564869892632140245178nat, q()); }
    assert(fq(t) == pow_m(xv, 863638133464265157025448005102658167981626068368029255129739785264280490356nat, q()));
    t = fq_square(&t);
    proof { lemma_pow_m_mul(xv, 863638133464265157025448005102658167981626068368029255129739785264280490356nat, 863638133464265157025448005102658167981626068368029255129739785264280490356nat, q()); }
    assert(fq(t) == pow_m(xv, 1727276266928530314050896010205316335963252136736058510259479570528560980712nat, q()));
    t = fq_square(&t);
    proof { lemma_pow_m_mul(xv, 1727276266928530314050896010205316335963252136736058510259479570528560980712nat, 1727276266928530314050896010205316335963252136736058510259479570528560980712nat, q()); }
    assert(fq(t) == pow_m(xv, 3454552533857060628101792020410632671926504273472117020518959141057121961424nat, q()));
    t = fq_mul(&t, x);
    proof { lemma_pow_m_mul_base(xv, 3454552533857060628101792020410632671926504273472117020518959141057121961424nat, q()); }
    assert(fq(t) == pow_m(xv, 3454552533857060628101792020410632671926504273472117020518959141057121961425nat, q()));
    t = fq_square(&t);
    proof { lemma_pow_m_mul(xv, 3454552533857060628101792020410632671926504273472117020518959141057121961425nat, 3454552533857060628101792020410632671926504273472117020518959141057121961425nat, q()); }
    assert(fq(t) == pow_m(xv, 6909105067714121256203584040821265343853008546944234041037918282114243922850nat, q()));
    t = fq_mul(&t, x);
    proof { lemma_pow_m_mul_base(xv, 6909105067714121256203584040821265343853008546944234041037918282114243922850nat, q()); }
    assert(fq(t) == pow_m(xv, 6909105067714121256203584040821265343853008546944234041037918282114243922851nat, q()));
    t
}

/// Raises a field element to the `INV_ALPHA`-th power by a
/// straight-line square-and-multiply scan of the exponent bits.
pub fn exp_inv_alpha(x: &Felt) -> (r: Felt)
    ensures
        fq(r) == pow_m(fq(*x), inv_alpha(), q()),
{
    let mut t = *x;
    t = scan_stage_1(x, t);
    t = scan_stage_2(x, t);
    t = scan_stage_3(x, t);
    t = scan_stage_4(x, t);
    t = scan_stage_5(x, t);
    t
}
} // verus!
