//! The inverse-alpha power map of the Anemoi S-box over the BLS12-377
//! base field.
//!
//! The S-box raises an element to the inverse of `ALPHA = 5` modulo
//! `p - 1`. The exponent is fixed, so the map is computed by a
//! straight-line square-and-multiply scan of its bits, which does not
//! branch on the input. Each step is proved to hold the stated power of
//! the input, so the contract pins the result to `x^INV_ALPHA mod p`.

use vstd::prelude::*;
use crate::arith::{pow_m, lemma_pow_m_mul, lemma_pow_m_mul_base, lemma_pow_m_square};
use crate::bls12_377::field::{Felt, fp, p, fp_square, fp_mul, fp_from_limbs};

verus! {

/// The forward S-box exponent.
pub const ALPHA: u32 = 5;

/// The little-endian limbs of the inverse exponent `ALPHA^-1 mod (p - 1)`.
pub const INV_ALPHA: [u64; 6] = [
    0xd0d3cccccccccccd,
    0x126f7dd026666666,
    0x18c2b4f2fb3aa000,
    0x7b4f14c2672a760c,
    0x04fc0499f0810762,
    0x01582e9e796a73ef,
];

/// The inverse exponent `ALPHA^-1 mod (p - 1)` as an integer.
pub open spec fn inv_alpha() -> nat {
    0x1582e9e796a73ef04fc0499f08107627b4f14c2672a760c18c2b4f2fb3aa000126f7dd026666666d0d3cccccccccccdnat
}

/// The additive constant of the S-box second half: the inverse of the
/// generator, `15^-1 mod p`.
pub open spec fn delta_val() -> int {
    0x395d1a6991bdfd2b7f5619a815813b148d2e20668713acaecb1e287f347000031294f80666666678234ccccccccccdint
}

/// The element holding `delta_val`.
pub(crate) fn delta() -> (r: Felt)
    ensures
        fp(r) == delta_val(),
{
    let r = fp_from_limbs(
        0x78234ccccccccccd,
        0x031294f806666666,
        0xaecb1e287f347000,
        0x148d2e20668713ac,
        0x2b7f5619a815813b,
        0x00395d1a6991bdfd,
    );
    r
}

/// One stage of the square-and-multiply scan of the exponent.
fn scan_stage_1(x: &Felt, t: Felt) -> (r: Felt)
    requires
        fp(t) == fp(*x),
    ensures
        fp(r) == pow_m(fp(*x), 3027457817662367nat, p()),
{
    let ghost xv: int = fp(*x);
    let mut t = t;
    t = fp_square(&t);
    proof { lemma_pow_m_square(xv, p()); }
    assert(fp(t) == pow_m(xv, 2nat, p()));
    t = fp_square(&t);
    proof { lemma_pow_m_mul(xv, 2nat, 2nat, p()); }
    assert(fp(t) == pow_m(xv, 4nat, p()));
    t = fp_mul(&t, x);
    proof { lemma_pow_m_mul_base(xv, 4nat, p()); }
    assert(fp(t) == pow_m(xv, 5nat, p()));
    t = fp_square(&t);
    proof { lemma_pow_m_mul(xv, 5nat, 5nat, p()); }
    assert(fp(t) == pow_m(xv, 10nat, p()));
    t = fp_square(&t);
    proof { lemma_pow_m_mul(xv, 10nat, 10nat, p()); }
    assert(fp(t) == pow_m(xv, 20nat, p()));
    t = fp_mul(&t, x);
    proof { lemma_pow_m_mul_base(xv, 20nat, p()); }
    assert(fp(t) == pow_m(xv, 21nat, p()));
    t = fp_square(&t);
    proof { lemma_pow_m_mul(xv, 21nat, 21nat, p()); }
    assert(fp(t) == pow_m(xv, 42nat, p()));
    t = fp_mul(&t, x);
    proof { lemma_pow_m_mul_base(xv, 42nat, p()); }
    assert(fp(t) == pow_m(xv, 43nat, p()));
    t = fp_square(&t);
    proof { lemma_pow_m_mul(xv, 43nat, 43nat, p()); }
    assert(fp(t) == pow_m(xv, 86nat, p()));
    t = fp_square(&t);
    proof { lemma_pow_m_mul(xv, 86nat, 86nat, p()); }
    assert(fp(t) == pow_m(xv, 172nat, p()));
    t = fp_square(&t);
    proof { lemma_pow_m_mul(xv, 172nat, 172nat, p()); }
    assert(fp(t) == pow_m(xv, 344nat, p()));
    t = fp_square(&t);
    proof { lemma_pow_m_mul(xv, 344nat, 344nat, p()); }
    assert(fp(t) == pow_m(xv, 688nat, p()));
    t = fp_square(&t);
    proof { lemma_pow_m_mul(xv, 688nat, 688nat, p()); }
    assert(fp(t) == pow_m(xv, 1376nat, p()));
    t = fp_square(&t);
    proof { lemma_pow_m_mul(xv, 1376nat, 1376nat, p()); }
    assert(fp(t) == pow_m(xv, 2752nat, p()));
    t = fp_mul(&t, x);
    proof { lemma_pow_m_mul_base(xv, 2752nat, p()); }
    assert(fp(t) == pow_m(xv, 2753nat, p()));
    t = fp_square(&t);
    proof { lemma_pow_m_mul(xv, 2753nat, 2753nat, p()); }
    assert(fp(t) == pow_m(xv, 5506nat, p()));
    t = fp_square(&t);
    proof { lemma_pow_m_mul(xv, 5506nat, 5506nat, p()); }
    assert(fp(t) == pow_m(xv, 11012nat, p()));
    t = fp_mul(&t, x);
    proof { lemma_pow_m_mul_base(xv, 11012nat, p()); }
    assert(fp(t) == pow_m(xv, 11013nat, p()));
    t = fp_square(&t);
    proof { lemma_pow_m_mul(xv, 11013nat, 11013nat, p()); }
    assert(fp(t) == pow_m(xv, 22026nat, p()));
    t = fp_mul(&t, x);
    proof { lemma_pow_m_mul_base(xv, 22026nat, p()); }
    assert(fp(t) == pow_m(xv, 22027nat, p()));
    t = fp_square(&t);
    proof { lemma_pow_m_mul(xv, 22027nat, 22027nat, p()); }
    assert(fp(t) == pow_m(xv, 44054nat, p()));
    t = fp_mul(&t, x);
    proof { lemma_pow_m_mul_base(xv, 44054nat, p()); }
    assert(fp(t) == pow_m(xv, 44055nat, p()));
    t = fp_square(&t);
    proof { lemma_pow_m_mul(xv, 44055nat, 44055nat, p()); }
    assert(fp(t) == pow_m(xv, 88110nat, p()));
    t = fp_square(&t);
    proof { lemma_pow_m_mul(xv, 88110nat, 88110nat, p()); }
    assert(fp(t) == pow_m(xv, 176220nat, p()));
    t = fp_mul(&t, x);
    proof { lemma_pow_m_mul_base(xv, 176220nat, p()); }
    assert(fp(t) == pow_m(xv, 176221nat, p()));
    t = fp_square(&t);
    proof { lemma_pow_m_mul(xv, 176221nat, 176221nat, p()); }
    assert(fp(t) == pow_m(xv, 352442nat, p()));
    t = fp_square(&t);
    proof { lemma_pow_m_mul(xv, 352442nat, 352442nat, p()); }
    assert(fp(t) == pow_m(xv, 704884nat, p()));
    t = fp_square(&t);
    proof { lemma_pow_m_mul(xv, 704884nat, 704884nat, p()); }
    assert(fp(t) == pow_m(xv, 1409768nat, p()));
    t = fp_mul(&t, x);
    proof { lemma_pow_m_mul_base(xv, 1409768nat, p()); }
    assert(fp(t) == pow_m(xv, 1409769nat, p()));
    t = fp_square(&t);
    proof { lemma_pow_m_mul(xv, 1409769nat, 1409769nat, p()); }
    assert(fp(t) == pow_m(xv, 2819538nat, p()));
    t = fp_mul(&t, x);
    proof { lemma_pow_m_mul_base(xv, 2819538nat, p()); }
    assert(fp(t) == pow_m(xv, 2819539nat, p()));
    t = fp_square(&t);
    proof { lemma_pow_m_mul(xv, 2819539nat, 2819539nat, p()); }
    assert(fp(t) == pow_m(xv, 5639078nat, p()));
    t = fp_mul(&t, x);
    proof { lemma_pow_m_mul_base(xv, 5639078nat, p()); }
    assert(fp(t) == pow_m(xv, 5639079nat, p()));
    t = fp_square(&t);
    proof { lemma_pow_m_mul(xv, 5639079nat, 5639079nat, p()); }
    assert(fp(t) == pow_m(xv, 11278158nat, p()));
    t = fp_mul(&t, x);
    proof { lemma_pow_m_mul_base(xv, 11278158nat, p()); }
    assert(fp(t) == pow_m(xv, 11278159nat, p()));
    t = fp_square(&t);
    proof { lemma_pow_m_mul(xv, 11278159nat, 11278159nat, p()); }
    assert(fp(t) == pow_m(xv, 22556318nat, p()));
    t = fp_square(&t);
    proof { lemma_pow_m_mul(xv, 22556318nat, 22556318nat, p()); }
    assert(fp(t) == pow_m(xv, 45112636nat, p()));
    t = fp_square(&t);
    proof { lemma_pow_m_mul(xv, 45112636nat, 45112636nat, p()); }
    assert(fp(t) == pow_m(xv, 90225272nat, p()));
    t = fp_mul(&t, x);
    proof { lemma_pow_m_mul_base(xv, 90225272nat, p()); }
    assert(fp(t) == pow_m(xv, 90225273nat, p()));
    t = fp_square(&t);
    proof { lemma_pow_m_mul(xv, 90225273nat, 90225273nat, p()); }
    assert(fp(t) == pow_m(xv, 180450546nat, p()));
    t = fp_mul(&t, x);
    proof { lemma_pow_m_mul_base(xv, 180450546nat, p()); }
    assert(fp(t) == pow_m(xv, 180450547nat, p()));
    t = fp_square(&t);
    proof { lemma_pow_m_mul(xv, 180450547nat, 180450547nat, p()); }
    assert(fp(t) == pow_m(xv, 360901094nat, p()));
    t = fp_mul(&t, x);
    proof { lemma_pow_m_mul_base(xv, 360901094nat, p()); }
    assert(fp(t) == pow_m(xv, 360901095nat, p()));
    t = fp_square(&t);
    proof { lemma_pow_m_mul(xv, 360901095nat, 360901095nat, p()); }
    assert(fp(t) == pow_m(xv, 721802190nat, p()));
    t = fp_mul(&t, x);
    proof { lemma_pow_m_mul_base(xv, 721802190nat, p()); }
    assert(fp(t) == pow_m(xv, 721802191nat, p()));
    t = fp_square(&t);
    proof { lemma_pow_m_mul(xv, 721802191nat, 721802191nat, p()); }
    assert(fp(t) == pow_m(xv, 1443604382nat, p()));
    t = fp_square(&t);
    proof { lemma_pow_m_mul(xv, 1443604382nat, 1443604382nat, p()); }
    assert(fp(t) == pow_m(xv, 2887208764nat, p()));
    t = fp_square(&t);
    proof { lemma_pow_m_mul(xv, 2887208764nat, 2887208764nat, p()); }
    assert(fp(t) == pow_m(xv, 5774417528nat, p()));
    t = fp_mul(&t, x);
    proof { lemma_pow_m_mul_base(xv, 5774417528nat, p()); }
    assert(fp(t) == pow_m(xv, 5774417529nat, p()));
    t = fp_square(&t);
    proof { lemma_pow_m_mul(xv, 5774417529nat, 5774417529nat, p()); }
    assert(fp(t) == pow_m(xv, 11548835058nat, p()));
    t = fp_square(&t);
    proof { lemma_pow_m_mul(xv, 11548835058nat, 11548835058nat, p()); }
    assert(fp(t) == pow_m(xv, 23097670116nat, p()));
    t = fp_mul(&t, x);
    proof { lemma_pow_m_mul_base(xv, 23097670116nat, p()); }
    assert(fp(t) == pow_m(xv, 23097670117nat, p()));
    t = fp_square(&t);
    proof { lemma_pow_m_mul(xv, 23097670117nat, 23097670117nat, p()); }
    assert(fp(t) == pow_m(xv, 46195340234nat, p()));
    t = fp_mul(&t, x);
    proof { lemma_pow_m_mul_base(xv, 46195340234nat, p()); }
    assert(fp(t) == pow_m(xv, 46195340235nat, p()));
    t = fp_square(&t);
    proof { lemma_pow_m_mul(xv, 46195340235nat, 46195340235nat, p()); }
    assert(fp(t) == pow_m(xv, 92390680470nat, p()));
    t = fp_square(&t);
    proof { lemma_pow_m_mul(xv, 92390680470nat, 92390680470nat, p()); }
    assert(fp(t) == pow_m(xv, 184781360940nat, p()));
    t = fp_mul(&t, x);
    proof { lemma_pow_m_mul_base(xv, 184781360940nat, p()); }
    assert(fp(t) == pow_m(xv, 184781360941nat, p()));
    t = fp_square(&t);
    proof { lemma_pow_m_mul(xv, 184781360941nat, 184781360941nat, p()); }
    assert(fp(t) == pow_m(xv, 369562721882nat, p()));
    t = fp_square(&t);
    proof { lemma_pow_m_mul(xv, 369562721882nat, 369562721882nat, p()); }
    assert(fp(t) == pow_m(xv, 739125443764nat, p()));
    t = fp_mul(&t, x);
    proof { lemma_pow_m_mul_base(xv, 739125443764nat, p()); }
    assert(fp(t) == pow_m(xv, 739125443765nat, p()));
    t = fp_square(&t);
    proof { lemma_pow_m_mul(xv, 739125443765nat, 739125443765nat, p()); }
    assert(fp(t) == pow_m(xv, 1478250887530nat, p()));
    t = fp_square(&t);
    proof { lemma_pow_m_mul(xv, 1478250887530nat, 1478250887530nat, p()); }
    assert(fp(t) == pow_m(xv, 2956501775060nat, p()));
    t = fp_square(&t);
    proof { lemma_pow_m_mul(xv, 2956501775060nat, 2956501775060nat, p()); }
    assert(fp(t) == pow_m(xv, 5913003550120nat, p()));
    t = fp_mul(&t, x);
    proof { lemma_pow_m_mul_base(xv, 5913003550120nat, p()); }
    assert(fp(t) == pow_m(xv, 5913003550121nat, p()));
    t = fp_square(&t);
    proof { lemma_pow_m_mul(xv, 5913003550121nat, 5913003550121nat, p()); }
    assert(fp(t) == pow_m(xv, 11826007100242nat, p()));
    t = fp_mul(&t, x);
    proof { lemma_pow_m_mul_base(xv, 11826007100242nat, p()); }
    assert(fp(t) == pow_m(xv, 11826007100243nat, p()));
    t = fp_square(&t);
    proof { lemma_pow_m_mul(xv, 11826007100243nat, 11826007100243nat, p()); }
    assert(fp(t) == pow_m(xv, 23652014200486nat, p()));
    t = fp_mul(&t, x);
    proof { lemma_pow_m_mul_base(xv, 23652014200486nat, p()); }
    assert(fp(t) == pow_m(xv, 23652014200487nat, p()));
    t = fp_square(&t);
    proof { lemma_pow_m_mul(xv, 23652014200487nat, 23652014200487nat, p()); }
    assert(fp(t) == pow_m(xv, 47304028400974nat, p()));
    t = fp_square(&t);
    proof { lemma_pow_m_mul(xv, 47304028400974nat, 47304028400974nat, p()); }
    assert(fp(t) == pow_m(xv, 94608056801948nat, p()));
    t = fp_square(&t);
    proof { lemma_pow_m_mul(xv, 94608056801948nat, 94608056801948nat, p()); }
    assert(fp(t) == pow_m(xv, 189216113603896nat, p()));
    t = fp_mul(&t, x);
    proof { lemma_pow_m_mul_base(xv, 189216113603896nat, p()); }
    assert(fp(t) == pow_m(xv, 189216113603897nat, p()));
    t = fp_square(&t);
    proof { lemma_pow_m_mul(xv, 189216113603897nat, 189216113603897nat, p()); }
    assert(fp(t) == pow_m(xv, 378432227207794nat, p()));
    t = fp_mul(&t, x);
    proof { lemma_pow_m_mul_base(xv, 378432227207794nat, p()); }
    assert(fp(t) == pow_m(xv, 378432227207795nat, p()));
    t = fp_square(&t);
    proof { lemma_pow_m_mul(xv, 378432227207795nat, 378432227207795nat, p()); }
    assert(fp(t) == pow_m(xv, 756864454415590nat, p()));
    t = fp_mul(&t, x);
    proof { lemma_pow_m_mul_base(xv, 756864454415590nat, p()); }
    assert(fp(t) == pow_m(xv, 756864454415591nat, p()));
    t = fp_square(&t);
    proof { lemma_pow_m_mul(xv, 756864454415591nat, 756864454415591nat, p()); }
    assert(fp(t) == pow_m(xv, 1513728908831182nat, p()));
    t = fp_mul(&t, x);
    proof { lemma_pow_m_mul_base(xv, 1513728908831182nat, p()); }
    assert(fp(t) == pow_m(xv, 1513728908831183nat, p()));
    t = fp_square(&t);
    proof { lemma_pow_m_mul(xv, 1513728908831183nat, 1513728908831183nat, p()); }
    assert(fp(t) == pow_m(xv, 3027457817662366nat, p()));
    t = fp_mul(&t, x);
    proof { lemma_pow_m_mul_base(xv, 3027457817662366nat, p()); }
    assert(fp(t) == pow_m(xv, 3027457817662367nat, p()));
    t
}

/// One stage of the square-and-multiply scan of the exponent.
fn scan_stage_2(x: &Felt, t: Felt) -> (r: Felt)
    requires
        fp(t) == pow_m(fp(*x), 3027457817662367nat, p()),
    ensures
        fp(r) == pow_m(fp(*x), 872605305568264522147347096801312nat, p()),
{
    let ghost xv: int = fp(*x);
    let mut t = t;
    t = fp_square(&t);
    proof { lemma_pow_m_mul(xv, 3027457817662367nat, 3027457817662367nat, p()); }
    assert(fp(t) == pow_m(xv, 6054915635324734nat, p()));
    t = fp_square(&t);
    proof { lemma_pow_m_mul(xv, 6054915635324734nat, 6054915635324734nat, p()); }
    assert(fp(t) == pow_m(xv, 12109831270649468nat, p()));
    t = fp_mul(&t, x);
    proof { lemma_pow_m_mul_base(xv, 12109831270649468nat, p()); }
    assert(fp(t) == pow_m(xv, 12109831270649469nat, p()));
    t = fp_square(&t);
    proof { lemma_pow_m_mul(xv, 12109831270649469nat, 12109831270649469nat, p()); }
    assert(fp(t) == pow_m(xv, 24219662541298938nat, p()));
    t = fp_mul(&t, x);
    proof { lemma_pow_m_mul_base(xv, 24219662541298938nat, p()); }
    assert(fp(t) == pow_m(xv, 24219662541298939nat, p()));
    t = fp_square(&t);
    proof { lemma_pow_m_mul(xv, 24219662541298939nat, 24219662541298939nat, p()); }
    assert(fp(t) == pow_m(xv, 48439325082597878nat, p()));
    t = fp_mul(&t, x);
    proof { lemma_pow_m_mul_base(xv, 48439325082597878nat, p()); }
    assert(fp(t) == pow_m(xv, 48439325082597879nat, p()));
    t = fp_square(&t);
    proof { lemma_pow_m_mul(xv, 48439325082597879nat, 48439325082597879nat, p()); }
    assert(fp(t) == pow_m(xv, 96878650165195758nat, p()));
    t = fp_mul(&t, x);
    proof { lemma_pow_m_mul_base(xv, 96878650165195758nat, p()); }
    assert(fp(t) == pow_m(xv, 96878650165195759nat, p()));
    t = fp_square(&t);
    proof { lemma_pow_m_mul(xv, 96878650165195759nat, 96878650165195759nat, p()); }
    assert(fp(t) == pow_m(xv, 193757300330391518nat, p()));
    t = fp_square(&t);
    proof { lemma_pow_m_mul(xv, 193757300330391518nat, 193757300330391518nat, p()); }
    assert(fp(t) == pow_m(xv, 387514600660783036nat, p()));
    t = fp_square(&t);
    proof { lemma_pow_m_mul(xv, 387514600660783036nat, 387514600660783036nat, p()); }
    assert(fp(t) == pow_m(xv, 775029201321566072nat, p()));
    t = fp_square(&t);
    proof { lemma_pow_m_mul(xv, 775029201321566072nat, 775029201321566072nat, p()); }
    assert(fp(t) == pow_m(xv, 1550058402643132144nat, p()));
    t = fp_square(&t);
    proof { lemma_pow_m_mul(xv, 1550058402643132144nat, 1550058402643132144nat, p()); }
    assert(fp(t) == pow_m(xv, 3100116805286264288nat, p()));
    t = fp_square(&t);
    proof { lemma_pow_m_mul(xv, 3100116805286264288nat, 3100116805286264288nat, p()); }
    assert(fp(t) == pow_m(xv, 6200233610572528576nat, p()));
    t = fp_mul(&t, x);
    proof { lemma_pow_m_mul_base(xv, 6200233610572528576nat, p()); }
    assert(fp(t) == pow_m(xv, 6200233610572528577nat, p()));
    t = fp_square(&t);
    proof { lemma_pow_m_mul(xv, 6200233610572528577nat, 6200233610572528577nat, p()); }
    assert(fp(t) == pow_m(xv, 12400467221145057154nat, p()));
    t = fp_square(&t);
    proof { lemma_pow_m_mul(xv, 12400467221145057154nat, 12400467221145057154nat, p()); }
    assert(fp(t) == pow_m(xv, 24800934442290114308nat, p()));
    t = fp_square(&t);
    proof { lemma_pow_m_mul(xv, 24800934442290114308nat, 24800934442290114308nat, p()); }
    assert(fp(t) == pow_m(xv, 49601868884580228616nat, p()));
    t = fp_mul(&t, x);
    proof { lemma_pow_m_mul_base(xv, 49601868884580228616nat, p()); }
    assert(fp(t) == pow_m(xv, 49601868884580228617nat, p()));
    t = fp_square(&t);
    proof { lemma_pow_m_mul(xv, 49601868884580228617nat, 49601868884580228617nat, p()); }
    assert(fp(t) == pow_m(xv, 99203737769160457234nat, p()));
    t = fp_mul(&t, x);
    proof { lemma_pow_m_mul_base(xv, 99203737769160457234nat, p()); }
    assert(fp(t) == pow_m(xv, 99203737769160457235nat, p()));
    t = fp_square(&t);
    proof { lemma_pow_m_mul(xv, 99203737769160457235nat, 99203737769160457235nat, p()); }
    assert(fp(t) == pow_m(xv, 198407475538320914470nat, p()));
    t = fp_mul(&t, x);
    proof { lemma_pow_m_mul_base(xv, 198407475538320914470nat, p()); }
    assert(fp(t) == pow_m(xv, 198407475538320914471nat, p()));
    t = fp_square(&t);
    proof { lemma_pow_m_mul(xv, 198407475538320914471nat, 198407475538320914471nat, p()); }
    assert(fp(t) == pow_m(xv, 396814951076641828942nat, p()));
    t = fp_mul(&t, x);
    proof { lemma_pow_m_mul_base(xv, 396814951076641828942nat, p()); }
    assert(fp(t) == pow_m(xv, 396814951076641828943nat, p()));
    t = fp_square(&t);
    proof { lemma_pow_m_mul(xv, 396814951076641828943nat, 396814951076641828943nat, p()); }
    assert(fp(t) == pow_m(xv, 793629902153283657886nat, p()));
    t = fp_mul(&t, x);
    proof { lemma_pow_m_mul_base(xv, 793629902153283657886nat, p()); }
    assert(fp(t) == pow_m(xv, 793629902153283657887nat, p()));
    t = fp_square(&t);
    proof { lemma_pow_m_mul(xv, 793629902153283657887nat, 793629902153283657887nat, p()); }
    assert(fp(t) == pow_m(xv, 1587259804306567315774nat, p()));
    t = fp_mul(&t, x);
    proof { lemma_pow_m_mul_base(xv, 1587259804306567315774nat, p()); }
    assert(fp(t) == pow_m(xv, 1587259804306567315775nat, p()));
    t = fp_square(&t);
    proof { lemma_pow_m_mul(xv, 1587259804306567315775nat, 1587259804306567315775nat, p()); }
    assert(fp(t) == pow_m(xv, 3174519608613134631550nat, p()));
    t = fp_square(&t);
    proof { lemma_pow_m_mul(xv, 3174519608613134631550nat, 3174519608613134631550nat, p()); }
    assert(fp(t) == pow_m(xv, 6349039217226269263100nat, p()));
    t = fp_square(&t);
    proof { lemma_pow_m_mul(xv, 6349039217226269263100nat, 6349039217226269263100nat, p()); }
    assert(fp(t) == pow_m(xv, 12698078434452538526200nat, p()));
    t = fp_square(&t);
    proof { lemma_pow_m_mul(xv, 12698078434452538526200nat, 12698078434452538526200nat, p()); }
    assert(fp(t) == pow_m(xv, 25396156868905077052400nat, p()));
    t = fp_square(&t);
    proof { lemma_pow_m_mul(xv, 25396156868905077052400nat, 25396156868905077052400nat, p()); }
    assert(fp(t) == pow_m(xv, 50792313737810154104800nat, p()));
    t = fp_square(&t);
    proof { lemma_pow_m_mul(xv, 50792313737810154104800nat, 50792313737810154104800nat, p()); }
    assert(fp(t) == pow_m(xv, 101584627475620308209600nat, p()));
    t = fp_square(&t);
    proof { lemma_pow_m_mul(xv, 101584627475620308209600nat, 101584627475620308209600nat, p()); }
    assert(fp(t) == pow_m(xv, 203169254951240616419200nat, p()));
    t = fp_square(&t);
    proof { lemma_pow_m_mul(xv, 203169254951240616419200nat, 203169254951240616419200nat, p()); }
    assert(fp(t) == pow_m(xv, 406338509902481232838400nat, p()));
    t = fp_mul(&t, x);
    proof { lemma_pow_m_mul_base(xv, 406338509902481232838400nat, p()); }
    assert(fp(t) == pow_m(xv, 406338509902481232838401nat, p()));
    t = fp_square(&t);
    proof { lemma_pow_m_mul(xv, 406338509902481232838401nat, 406338509902481232838401nat, p()); }
    assert(fp(t) == pow_m(xv, 812677019804962465676802nat, p()));
    t = fp_square(&t);
    proof { lemma_pow_m_mul(xv, 812677019804962465676802nat, 812677019804962465676802nat, p()); }
    assert(fp(t) == pow_m(xv, 1625354039609924931353604nat, p()));
    t = fp_square(&t);
    proof { lemma_pow_m_mul(xv, 1625354039609924931353604nat, 1625354039609924931353604nat, p()); }
    assert(fp(t) == pow_m(xv, 3250708079219849862707208nat, p()));
    t = fp_mul(&t, x);
    proof { lemma_pow_m_mul_base(xv, 3250708079219849862707208nat, p()); }
    assert(fp(t) == pow_m(xv, 3250708079219849862707209nat, p()));
    t = fp_square(&t);
    proof { lemma_pow_m_mul(xv, 3250708079219849862707209nat, 3250708079219849862707209nat, p()); }
    assert(fp(t) == pow_m(xv, 6501416158439699725414418nat, p()));
    t = fp_square(&t);
    proof { lemma_pow_m_mul(xv, 6501416158439699725414418nat, 6501416158439699725414418nat, p()); }
    assert(fp(t) == pow_m(xv, 13002832316879399450828836nat, p()));
    t = fp_square(&t);
    proof { lemma_pow_m_mul(xv, 13002832316879399450828836nat, 13002832316879399450828836nat, p()); }
    assert(fp(t) == pow_m(xv, 26005664633758798901657672nat, p()));
    t = fp_mul(&t, x);
    proof { lemma_pow_m_mul_base(xv, 26005664633758798901657672nat, p()); }
    assert(fp(t) == pow_m(xv, 26005664633758798901657673nat, p()));
    t = fp_square(&t);
    proof { lemma_pow_m_mul(xv, 26005664633758798901657673nat, 26005664633758798901657673nat, p()); }
    assert(fp(t) == pow_m(xv, 52011329267517597803315346nat, p()));
    t = fp_mul(&t, x);
    proof { lemma_pow_m_mul_base(xv, 52011329267517597803315346nat, p()); }
    assert(fp(t) == pow_m(xv, 52011329267517597803315347nat, p()));
    t = fp_square(&t);
    proof { lemma_pow_m_mul(xv, 52011329267517597803315347nat, 52011329267517597803315347nat, p()); }
    assert(fp(t) == pow_m(xv, 104022658535035195606630694nat, p()));
    t = fp_square(&t);
    proof { lemma_pow_m_mul(xv, 104022658535035195606630694nat, 104022658535035195606630694nat, p()); }
    assert(fp(t) == pow_m(xv, 208045317070070391213261388nat, p()));
    t = fp_square(&t);
    proof { lemma_pow_m_mul(xv, 208045317070070391213261388nat, 208045317070070391213261388nat, p()); }
    assert(fp(t) == pow_m(xv, 416090634140140782426522776nat, p()));
    t = fp_mul(&t, x);
    proof { lemma_pow_m_mul_base(xv, 416090634140140782426522776nat, p()); }
    assert(fp(t) == pow_m(xv, 416090634140140782426522777nat, p()));
    t = fp_square(&t);
    proof { lemma_pow_m_mul(xv, 416090634140140782426522777nat, 416090634140140782426522777nat, p()); }
    assert(fp(t) == pow_m(xv, 832181268280281564853045554nat, p()));
    t = fp_mul(&t, x);
    proof { lemma_pow_m_mul_base(xv, 832181268280281564853045554nat, p()); }
    assert(fp(t) == pow_m(xv, 832181268280281564853045555nat, p()));
    t = fp_square(&t);
    proof { lemma_pow_m_mul(xv, 832181268280281564853045555nat, 832181268280281564853045555nat, p()); }
    assert(fp(t) == pow_m(xv, 1664362536560563129706091110nat, p()));
    t = fp_mul(&t, x);
    proof { lemma_pow_m_mul_base(xv, 1664362536560563129706091110nat, p()); }
    assert(fp(t) == pow_m(xv, 1664362536560563129706091111nat, p()));
    t = fp_square(&t);
    proof { lemma_pow_m_mul(xv, 1664362536560563129706091111nat, 1664362536560563129706091111nat, p()); }
    assert(fp(t) == pow_m(xv, 3328725073121126259412182222nat, p()));
    t = fp_mul(&t, x);
    proof { lemma_pow_m_mul_base(xv, 3328725073121126259412182222nat, p()); }
    assert(fp(t) == pow_m(xv, 3328725073121126259412182223nat, p()));
    t = fp_square(&t);
    proof { lemma_pow_m_mul(xv, 3328725073121126259412182223nat, 3328725073121126259412182223nat, p()); }
    assert(fp(t) == pow_m(xv, 6657450146242252518824364446nat, p()));
    t = fp_mul(&t, x);
    proof { lemma_pow_m_mul_base(xv, 6657450146242252518824364446nat, p()); }
    assert(fp(t) == pow_m(xv, 6657450146242252518824364447nat, p()));
    t = fp_square(&t);
    proof { lemma_pow_m_mul(xv, 6657450146242252518824364447nat, 6657450146242252518824364447nat, p()); }
    assert(fp(t) == pow_m(xv, 13314900292484505037648728894nat, p()));
    t = fp_square(&t);
    proof { lemma_pow_m_mul(xv, 13314900292484505037648728894nat, 13314900292484505037648728894nat, p()); }
    assert(fp(t) == pow_m(xv, 26629800584969010075297457788nat, p()));
    t = fp_square(&t);
    proof { lemma_pow_m_mul(xv, 26629800584969010075297457788nat, 26629800584969010075297457788nat, p()); }
    assert(fp(t) == pow_m(xv, 53259601169938020150594915576nat, p()));
    t = fp_square(&t);
    proof { lemma_pow_m_mul(xv, 53259601169938020150594915576nat, 53259601169938020150594915576nat, p()); }
    assert(fp(t) == pow_m(xv, 106519202339876040301189831152nat, p()));
    t = fp_square(&t);
    proof { lemma_pow_m_mul(xv, 106519202339876040301189831152nat, 106519202339876040301189831152nat, p()); }
    assert(fp(t) == pow_m(xv, 213038404679752080602379662304nat, p()));
    t = fp_mul(&t, x);
    proof { lemma_pow_m_mul_base(xv, 213038404679752080602379662304nat, p()); }
    assert(fp(t) == pow_m(xv, 213038404679752080602379662305nat, p()));
    t = fp_square(&t);
    proof { lemma_pow_m_mul(xv, 213038404679752080602379662305nat, 213038404679752080602379662305nat, p()); }
    assert(fp(t) == pow_m(xv, 426076809359504161204759324610nat, p()));
    t = fp_square(&t);
    proof { lemma_pow_m_mul(xv, 426076809359504161204759324610nat, 426076809359504161204759324610nat, p()); }
    assert(fp(t) == pow_m(xv, 852153618719008322409518649220nat, p()));
    t = fp_square(&t);
    proof { lemma_pow_m_mul(xv, 852153618719008322409518649220nat, 852153618719008322409518649220nat, p()); }
    assert(fp(t) == pow_m(xv, 1704307237438016644819037298440nat, p()));
    t = fp_square(&t);
    proof { lemma_pow_m_mul(xv, 1704307237438016644819037298440nat, 1704307237438016644819037298440nat, p()); }
    assert(fp(t) == pow_m(xv, 3408614474876033289638074596880nat, p()));
    t = fp_square(&t);
    proof { lemma_pow_m_mul(xv, 3408614474876033289638074596880nat, 3408614474876033289638074596880nat, p()); }
    assert(fp(t) == pow_m(xv, 6817228949752066579276149193760nat, p()));
    t = fp_square(&t);
    proof { lemma_pow_m_mul(xv, 6817228949752066579276149193760nat, 6817228949752066579276149193760nat, p()); }
    assert(fp(t) == pow_m(xv, 13634457899504133158552298387520nat, p()));
    t = fp_square(&t);
    proof { lemma_pow_m_mul(xv, 13634457899504133158552298387520nat, 13634457899504133158552298387520nat, p()); }
    assert(fp(t) == pow_m(xv, 27268915799008266317104596775040nat, p()));
    t = fp_mul(&t, x);
    proof { lemma_pow_m_mul_base(xv, 27268915799008266317104596775040nat, p()); }
    assert(fp(t) == pow_m(xv, 27268915799008266317104596775041nat, p()));
    t = fp_square(&t);
    proof { lemma_pow_m_mul(xv, 27268915799008266317104596775041nat, 27268915799008266317104596775041nat, p()); }
    assert(fp(t) == pow_m(xv, 54537831598016532634209193550082nat, p()));
    t = fp_square(&t);
    proof { lemma_pow_m_mul(xv, 54537831598016532634209193550082nat, 54537831598016532634209193550082nat, p()); }
    assert(fp(t) == pow_m(xv, 109075663196033065268418387100164nat, p()));
    t = fp_square(&t);
    proof { lemma_pow_m_mul(xv, 109075663196033065268418387100164nat, 109075663196033065268418387100164nat, p()); }
    assert(fp(t) == pow_m(xv, 218151326392066130536836774200328nat, p()));
    t = fp_square(&t);
    proof { lemma_pow_m_mul(xv, 218151326392066130536836774200328nat, 218151326392066130536836774200328nat, p()); }
    assert(fp(t) == pow_m(xv, 436302652784132261073673548400656nat, p()));
    t = fp_square(&t);
    proof { lemma_pow_m_mul(xv, 436302652784132261073673548400656nat, 436302652784132261073673548400656nat, p()); }
    assert(fp(t) == pow_m(xv, 872605305568264522147347096801312nat, p()));
    t
}

/// One stage of the square-and-multiply scan of the exponent.
fn scan_stage_3(x: &Felt, t: Felt) -> (r: Felt)
    requires
        fp(t) == pow_m(fp(*x), 872605305568264522147347096801312nat, p()),
    ensures
        fp(r) == pow_m(fp(*x), 7859729857997507800543890713182858567000582719900nat, p()),
{
    let ghost xv: int = fp(*x);
    let mut t = t;
    t = fp_square(&t);
    proof { lemma_pow_m_mul(xv, 872605305568264522147347096801312nat, 872605305568264522147347096801312nat, p()); }
    assert(fp(t) == pow_m(xv, 1745210611136529044294694193602624nat, p()));
    t = fp_mul(&t, x);
    proof { lemma_pow_m_mul_base(xv, 1745210611136529044294694193602624nat, p()); }
    assert(fp(t) == pow_m(xv, 1745210611136529044294694193602625nat, p()));
    t = fp_square(&t);
    proof { lemma_pow_m_mul(xv, 1745210611136529044294694193602625nat, 1745210611136529044294694193602625nat, p()); }
    assert(fp(t) == pow_m(xv, 3490421222273058088589388387205250nat, p()));
    t = fp_mul(&t, x);
    proof { lemma_pow_m_mul_base(xv, 3490421222273058088589388387205250nat, p()); }
    assert(fp(t) == pow_m(xv, 3490421222273058088589388387205251nat, p()));
    t = fp_square(&t);
    proof { lemma_pow_m_mul(xv, 3490421222273058088589388387205251nat, 3490421222273058088589388387205251nat, p()); }
    assert(fp(t) == pow_m(xv, 6980842444546116177178776774410502nat, p()));
    t = fp_mul(&t, x);
    proof { lemma_pow_m_mul_base(xv, 6980842444546116177178776774410502nat, p()); }
    assert(fp(t) == pow_m(xv, 6980842444546116177178776774410503nat, p()));
    t = fp_square(&t);
    proof { lemma_pow_m_mul(xv, 6980842444546116177178776774410503nat, 6980842444546116177178776774410503nat, p()); }
    assert(fp(t) == pow_m(xv, 13961684889092232354357553548821006nat, p()));
    t = fp_square(&t);
    proof { lemma_pow_m_mul(xv, 13961684889092232354357553548821006nat, 13961684889092232354357553548821006nat, p()); }
    assert(fp(t) == pow_m(xv, 27923369778184464708715107097642012nat, p()));
    t = fp_mul(&t, x);
    proof { lemma_pow_m_mul_base(xv, 27923369778184464708715107097642012nat, p()); }
    assert(fp(t) == pow_m(xv, 27923369778184464708715107097642013nat, p()));
    t = fp_square(&t);
    proof { lemma_pow_m_mul(xv, 27923369778184464708715107097642013nat, 27923369778184464708715107097642013nat, p()); }
    assert(fp(t) == pow_m(xv, 55846739556368929417430214195284026nat, p()));
    t = fp_mul(&t, x);
    proof { lemma_pow_m_mul_base(xv, 55846739556368929417430214195284026nat, p()); }
    assert(fp(t) == pow_m(xv, 55846739556368929417430214195284027nat, p()));
    t = fp_square(&t);
    proof { lemma_pow_m_mul(xv, 55846739556368929417430214195284027nat, 55846739556368929417430214195284027nat, p()); }
    assert(fp(t) == pow_m(xv, 111693479112737858834860428390568054nat, p()));
    t = fp_square(&t);
    proof { lemma_pow_m_mul(xv, 111693479112737858834860428390568054nat, 111693479112737858834860428390568054nat, p()); }
    assert(fp(t) == pow_m(xv, 223386958225475717669720856781136108nat, p()));
    t = fp_square(&t);
    proof { lemma_pow_m_mul(xv, 223386958225475717669720856781136108nat, 223386958225475717669720856781136108nat, p()); }
    assert(fp(t) == pow_m(xv, 446773916450951435339441713562272216nat, p()));
    t = fp_square(&t);
    proof { lemma_pow_m_mul(xv, 446773916450951435339441713562272216nat, 446773916450951435339441713562272216nat, p()); }
    assert(fp(t) == pow_m(xv, 893547832901902870678883427124544432nat, p()));
    t = fp_mul(&t, x);
    proof { lemma_pow_m_mul_base(xv, 893547832901902870678883427124544432nat, p()); }
    assert(fp(t) == pow_m(xv, 893547832901902870678883427124544433nat, p()));
    t = fp_square(&t);
    proof { lemma_pow_m_mul(xv, 893547832901902870678883427124544433nat, 893547832901902870678883427124544433nat, p()); }
    assert(fp(t) == pow_m(xv, 1787095665803805741357766854249088866nat, p()));
    t = fp_square(&t);
    proof { lemma_pow_m_mul(xv, 1787095665803805741357766854249088866nat, 1787095665803805741357766854249088866nat, p()); }
    assert(fp(t) == pow_m(xv, 3574191331607611482715533708498177732nat, p()));
    t = fp_square(&t);
    proof { lemma_pow_m_mul(xv, 3574191331607611482715533708498177732nat, 3574191331607611482715533708498177732nat, p()); }
    assert(fp(t) == pow_m(xv, 7148382663215222965431067416996355464nat, p()));
    t = fp_mul(&t, x);
    proof { lemma_pow_m_mul_base(xv, 7148382663215222965431067416996355464nat, p()); }
    assert(fp(t) == pow_m(xv, 7148382663215222965431067416996355465nat, p()));
    t = fp_square(&t);
    proof { lemma_pow_m_mul(xv, 7148382663215222965431067416996355465nat, 7148382663215222965431067416996355465nat, p()); }
    assert(fp(t) == pow_m(xv, 14296765326430445930862134833992710930nat, p()));
    t = fp_mul(&t, x);
    proof { lemma_pow_m_mul_base(xv, 14296765326430445930862134833992710930nat, p()); }
    assert(fp(t) == pow_m(xv, 14296765326430445930862134833992710931nat, p()));
    t = fp_square(&t);
    proof { lemma_pow_m_mul(xv, 14296765326430445930862134833992710931nat, 14296765326430445930862134833992710931nat, p()); }
    assert(fp(t) == pow_m(xv, 28593530652860891861724269667985421862nat, p()));
    t = fp_mul(&t, x);
    proof { lemma_pow_m_mul_base(xv, 28593530652860891861724269667985421862nat, p()); }
    assert(fp(t) == pow_m(xv, 28593530652860891861724269667985421863nat, p()));
    t = fp_square(&t);
    proof { lemma_pow_m_mul(xv, 28593530652860891861724269667985421863nat, 28593530652860891861724269667985421863nat, p()); }
    assert(fp(t) == pow_m(xv, 57187061305721783723448539335970843726nat, p()));
    t = fp_mul(&t, x);
    proof { lemma_pow_m_mul_base(xv, 57187061305721783723448539335970843726nat, p()); }
    assert(fp(t) == pow_m(xv, 57187061305721783723448539335970843727nat, p()));
    t = fp_square(&t);
    proof { lemma_pow_m_mul(xv, 57187061305721783723448539335970843727nat, 57187061305721783723448539335970843727nat, p()); }
    assert(fp(t) == pow_m(xv, 114374122611443567446897078671941687454nat, p()));
    t = fp_square(&t);
    proof { lemma_pow_m_mul(xv, 114374122611443567446897078671941687454nat, 114374122611443567446897078671941687454nat, p()); }
    assert(fp(t) == pow_m(xv, 228748245222887134893794157343883374908nat, p()));
    t = fp_mul(&t, x);
    proof { lemma_pow_m_mul_base(xv, 228748245222887134893794157343883374908nat, p()); }
    assert(fp(t) == pow_m(xv, 228748245222887134893794157343883374909nat, p()));
    t = fp_square(&t);
    proof { lemma_pow_m_mul(xv, 228748245222887134893794157343883374909nat, 228748245222887134893794157343883374909nat, p()); }
    assert(fp(t) == pow_m(xv, 457496490445774269787588314687766749818nat, p()));
    t = fp_mul(&t, x);
    proof { lemma_pow_m_mul_base(xv, 457496490445774269787588314687766749818nat, p()); }
    assert(fp(t) == pow_m(xv, 457496490445774269787588314687766749819nat, p()));
    t = fp_square(&t);
    proof { lemma_pow_m_mul(xv, 457496490445774269787588314687766749819nat, 457496490445774269787588314687766749819nat, p()); }
    assert(fp(t) == pow_m(xv, 914992980891548539575176629375533499638nat, p()));
    t = fp_square(&t);
    proof { lemma_pow_m_mul(xv, 914992980891548539575176629375533499638nat, 914992980891548539575176629375533499638nat, p()); }
    assert(fp(t) == pow_m(xv, 1829985961783097079150353258751066999276nat, p()));
    t = fp_mul(&t, x);
    proof { lemma_pow_m_mul_base(xv, 1829985961783097079150353258751066999276nat, p()); }
    assert(fp(t) == pow_m(xv, 1829985961783097079150353258751066999277nat, p()));
    t = fp_square(&t);
    proof { lemma_pow_m_mul(xv, 1829985961783097079150353258751066999277nat, 1829985961783097079150353258751066999277nat, p()); }
    assert(fp(t) == pow_m(xv, 3659971923566194158300706517502133998554nat, p()));
    t = fp_square(&t);
    proof { lemma_pow_m_mul(xv, 3659971923566194158300706517502133998554nat, 3659971923566194158300706517502133998554nat, p()); }
    assert(fp(t) == pow_m(xv, 7319943847132388316601413035004267997108nat, p()));
    t = fp_square(&t);
    proof { lemma_pow_m_mul(xv, 7319943847132388316601413035004267997108nat, 7319943847132388316601413035004267997108nat, p()); }
    assert(fp(t) == pow_m(xv, 14639887694264776633202826070008535994216nat, p()));
    t = fp_mul(&t, x);
    proof { lemma_pow_m_mul_base(xv, 14639887694264776633202826070008535994216nat, p()); }
    assert(fp(t) == pow_m(xv, 14639887694264776633202826070008535994217nat, p()));
    t = fp_square(&t);
    proof { lemma_pow_m_mul(xv, 14639887694264776633202826070008535994217nat, 14639887694264776633202826070008535994217nat, p()); }
    assert(fp(t) == pow_m(xv, 29279775388529553266405652140017071988434nat, p()));
    t = fp_mul(&t, x);
    proof { lemma_pow_m_mul_base(xv, 29279775388529553266405652140017071988434nat, p()); }
    assert(fp(t) == pow_m(xv, 29279775388529553266405652140017071988435nat, p()));
    t = fp_square(&t);
    proof { lemma_pow_m_mul(xv, 29279775388529553266405652140017071988435nat, 29279775388529553266405652140017071988435nat, p()); }
    assert(fp(t) == pow_m(xv, 58559550777059106532811304280034143976870nat, p()));
    t = fp_mul(&t, x);
    proof { lemma_pow_m_mul_base(xv, 58559550777059106532811304280034143976870nat, p()); }
    assert(fp(t) == pow_m(xv, 58559550777059106532811304280034143976871nat, p()));
    t = fp_square(&t);
    proof { lemma_pow_m_mul(xv, 58559550777059106532811304280034143976871nat, 58559550777059106532811304280034143976871nat, p()); }
    assert(fp(t) == pow_m(xv, 117119101554118213065622608560068287953742nat, p()));
    t = fp_mul(&t, x);
    proof { lemma_pow_m_mul_base(xv, 117119101554118213065622608560068287953742nat, p()); }
    assert(fp(t) == pow_m(xv, 117119101554118213065622608560068287953743nat, p()));
    t = fp_square(&t);
    proof { lemma_pow_m_mul(xv, 117119101554118213065622608560068287953743nat, 117119101554118213065622608560068287953743nat, p()); }
    assert(fp(t) == pow_m(xv, 234238203108236426131245217120136575907486nat, p()));
    t = fp_square(&t);
    proof { lemma_pow_m_mul(xv, 234238203108236426131245217120136575907486nat, 234238203108236426131245217120136575907486nat, p()); }
    assert(fp(t) == pow_m(xv, 468476406216472852262490434240273151814972nat, p()));
    t = fp_square(&t);
    proof { lemma_pow_m_mul(xv, 468476406216472852262490434240273151814972nat, 468476406216472852262490434240273151814972nat, p()); }
    assert(fp(t) == pow_m(xv, 936952812432945704524980868480546303629944nat, p()));
    t = fp_square(&t);
    proof { lemma_pow_m_mul(xv, 936952812432945704524980868480546303629944nat, 936952812432945704524980868480546303629944nat, p()); }
    assert(fp(t) == pow_m(xv, 1873905624865891409049961736961092607259888nat, p()));
    t = fp_mul(&t, x);
    proof { lemma_pow_m_mul_base(xv, 1873905624865891409049961736961092607259888nat, p()); }
    assert(fp(t) == pow_m(xv, 1873905624865891409049961736961092607259889nat, p()));
    t = fp_square(&t);
    proof { lemma_pow_m_mul(xv, 1873905624865891409049961736961092607259889nat, 1873905624865891409049961736961092607259889nat, p()); }
    assert(fp(t) == pow_m(xv, 3747811249731782818099923473922185214519778nat, p()));
    t = fp_square(&t);
    proof { lemma_pow_m_mul(xv, 3747811249731782818099923473922185214519778nat, 3747811249731782818099923473922185214519778nat, p()); }
    assert(fp(t) == pow_m(xv, 7495622499463565636199846947844370429039556nat, p()));
    t = fp_mul(&t, x);
    proof { lemma_pow_m_mul_base(xv, 7495622499463565636199846947844370429039556nat, p()); }
    assert(fp(t) == pow_m(xv, 7495622499463565636199846947844370429039557nat, p()));
    t = fp_square(&t);
    proof { lemma_pow_m_mul(xv, 7495622499463565636199846947844370429039557nat, 7495622499463565636199846947844370429039557nat, p()); }
    assert(fp(t) == pow_m(xv, 14991244998927131272399693895688740858079114nat, p()));
    t = fp_square(&t);
    proof { lemma_pow_m_mul(xv, 14991244998927131272399693895688740858079114nat, 14991244998927131272399693895688740858079114nat, p()); }
    assert(fp(t) == pow_m(xv, 29982489997854262544799387791377481716158228nat, p()));
    t = fp_square(&t);
    proof { lemma_pow_m_mul(xv, 29982489997854262544799387791377481716158228nat, 29982489997854262544799387791377481716158228nat, p()); }
    assert(fp(t) == pow_m(xv, 59964979995708525089598775582754963432316456nat, p()));
    t = fp_mul(&t, x);
    proof { lemma_pow_m_mul_base(xv, 59964979995708525089598775582754963432316456nat, p()); }
    assert(fp(t) == pow_m(xv, 59964979995708525089598775582754963432316457nat, p()));
    t = fp_square(&t);
    proof { lemma_pow_m_mul(xv, 59964979995708525089598775582754963432316457nat, 59964979995708525089598775582754963432316457nat, p()); }
    assert(fp(t) == pow_m(xv, 119929959991417050179197551165509926864632914nat, p()));
    t = fp_mul(&t, x);
    proof { lemma_pow_m_mul_base(xv, 119929959991417050179197551165509926864632914nat, p()); }
    assert(fp(t) == pow_m(xv, 119929959991417050179197551165509926864632915nat, p()));
    t = fp_square(&t);
    proof { lemma_pow_m_mul(xv, 119929959991417050179197551165509926864632915nat, 119929959991417050179197551165509926864632915nat, p()); }
    assert(fp(t) == pow_m(xv, 239859919982834100358395102331019853729265830nat, p()));
    t = fp_square(&t);
    proof { lemma_pow_m_mul(xv, 239859919982834100358395102331019853729265830nat, 239859919982834100358395102331019853729265830nat, p()); }
    assert(fp(t) == pow_m(xv, 479719839965668200716790204662039707458531660nat, p()));
    t = fp_square(&t);
    proof { lemma_pow_m_mul(xv, 479719839965668200716790204662039707458531660nat, 479719839965668200716790204662039707458531660nat, p()); }
    assert(fp(t) == pow_m(xv, 959439679931336401433580409324079414917063320nat, p()));
    t = fp_square(&t);
    proof { lemma_pow_m_mul(xv, 959439679931336401433580409324079414917063320nat, 959439679931336401433580409324079414917063320nat, p()); }
    assert(fp(t) == pow_m(xv, 1918879359862672802867160818648158829834126640nat, p()));
    t = fp_square(&t);
    proof { lemma_pow_m_mul(xv, 1918879359862672802867160818648158829834126640nat, 1918879359862672802867160818648158829834126640nat, p()); }
    assert(fp(t) == pow_m(xv, 3837758719725345605734321637296317659668253280nat, p()));
    t = fp_mul(&t, x);
    proof { lemma_pow_m_mul_base(xv, 3837758719725345605734321637296317659668253280nat, p()); }
    assert(fp(t) == pow_m(xv, 3837758719725345605734321637296317659668253281nat, p()));
    t = fp_square(&t);
    proof { lemma_pow_m_mul(xv, 3837758719725345605734321637296317659668253281nat, 3837758719725345605734321637296317659668253281nat, p()); }
    assert(fp(t) == pow_m(xv, 7675517439450691211468643274592635319336506562nat, p()));
    t = fp_square(&t);
    proof { lemma_pow_m_mul(xv, 7675517439450691211468643274592635319336506562nat, 7675517439450691211468643274592635319336506562nat, p()); }
    assert(fp(t) == pow_m(xv, 15351034878901382422937286549185270638673013124nat, p()));
    t = fp_square(&t);
    proof { lemma_pow_m_mul(xv, 15351034878901382422937286549185270638673013124nat, 15351034878901382422937286549185270638673013124nat, p()); }
    assert(fp(t) == pow_m(xv, 30702069757802764845874573098370541277346026248nat, p()));
    t = fp_mul(&t, x);
    proof { lemma_pow_m_mul_base(xv, 30702069757802764845874573098370541277346026248nat, p()); }
    assert(fp(t) == pow_m(xv, 30702069757802764845874573098370541277346026249nat, p()));
    t = fp_square(&t);
    proof { lemma_pow_m_mul(xv, 30702069757802764845874573098370541277346026249nat, 30702069757802764845874573098370541277346026249nat, p()); }
    assert(fp(t) == pow_m(xv, 61404139515605529691749146196741082554692052498nat, p()));
    t = fp_mul(&t, x);
    proof { lemma_pow_m_mul_base(xv, 61404139515605529691749146196741082554692052498nat, p()); }
    assert(fp(t) == pow_m(xv, 61404139515605529691749146196741082554692052499nat, p()));
    t = fp_square(&t);
    proof { lemma_pow_m_mul(xv, 61404139515605529691749146196741082554692052499nat, 61404139515605529691749146196741082554692052499nat, p()); }
    assert(fp(t) == pow_m(xv, 122808279031211059383498292393482165109384104998nat, p()));
    t = fp_square(&t);
    proof { lemma_pow_m_mul(xv, 122808279031211059383498292393482165109384104998nat, 122808279031211059383498292393482165109384104998nat, p()); }
    assert(fp(t) == pow_m(xv, 245616558062422118766996584786964330218768209996nat, p()));
    t = fp_square(&t);
    proof { lemma_pow_m_mul(xv, 245616558062422118766996584786964330218768209996nat, 245616558062422118766996584786964330218768209996nat, p()); }
    assert(fp(t) == pow_m(xv, 491233116124844237533993169573928660437536419992nat, p()));
    t = fp_mul(&t, x);
    proof { lemma_pow_m_mul_base(xv, 491233116124844237533993169573928660437536419992nat, p()); }
    assert(fp(t) == pow_m(xv, 491233116124844237533993169573928660437536419993nat, p()));
    t = fp_square(&t);
    proof { lemma_pow_m_mul(xv, 491233116124844237533993169573928660437536419993nat, 491233116124844237533993169573928660437536419993nat, p()); }
    assert(fp(t) == pow_m(xv, 982466232249688475067986339147857320875072839986nat, p()));
    t = fp_mul(&t, x);
    proof { lemma_pow_m_mul_base(xv, 982466232249688475067986339147857320875072839986nat, p()); }
    assert(fp(t) == pow_m(xv, 982466232249688475067986339147857320875072839987nat, p()));
    t = fp_square(&t);
    proof { lemma_pow_m_mul(xv, 982466232249688475067986339147857320875072839987nat, 982466232249688475067986339147857320875072839987nat, p()); }
    assert(fp(t) == pow_m(xv, 1964932464499376950135972678295714641750145679974nat, p()));
    t = fp_mul(&t, x);
    proof { lemma_pow_m_mul_base(xv, 1964932464499376950135972678295714641750145679974nat, p()); }
    assert(fp(t) == pow_m(xv, 1964932464499376950135972678295714641750145679975nat, p()));
    t = fp_square(&t);
    proof { lemma_pow_m_mul(xv, 1964932464499376950135972678295714641750145679975nat, 1964932464499376950135972678295714641750145679975nat, p()); }
    assert(fp(t) == pow_m(xv, 3929864928998753900271945356591429283500291359950nat, p()));
    t = fp_square(&t);
    proof { lemma_pow_m_mul(xv, 3929864928998753900271945356591429283500291359950nat, 3929864928998753900271945356591429283500291359950nat, p()); }
    assert(fp(t) == pow_m(xv, 7859729857997507800543890713182858567000582719900nat, p()));
    t
}

/// One stage of the square-and-multiply scan of the exponent.
fn scan_stage_4(x: &Felt, t: Felt) -> (r: Felt)
    requires
        fp(t) == pow_m(fp(*x), 7859729857997507800543890713182858567000582719900nat, p()),
    ensures
        fp(r) == pow_m(fp(*x), 283176611677682700567421610104715161270471801710133770468234455525nat, p()),
{
    let ghost xv: int = fp(*x);
    let mut t = t;
    t = fp_square(&t);
    proof { lemma_pow_m_mul(xv, 7859729857997507800543890713182858567000582719900nat, 7859729857997507800543890713182858567000582719900nat, p()); }
    assert(fp(t) == pow_m(xv, 15719459715995015601087781426365717134001165439800nat, p()));
    t = fp_mul(&t, x);
    proof { lemma_pow_m_mul_base(xv, 15719459715995015601087781426365717134001165439800nat, p()); }
    assert(fp(t) == pow_m(xv, 15719459715995015601087781426365717134001165439801nat, p()));
    t = fp_square(&t);
    proof { lemma_pow_m_mul(xv, 15719459715995015601087781426365717134001165439801nat, 15719459715995015601087781426365717134001165439801nat, p()); }
    assert(fp(t) == pow_m(xv, 31438919431990031202175562852731434268002330879602nat, p()));
    t = fp_square(&t);
    proof { lemma_pow_m_mul(xv, 31438919431990031202175562852731434268002330879602nat, 31438919431990031202175562852731434268002330879602nat, p()); }
    assert(fp(t) == pow_m(xv, 62877838863980062404351125705462868536004661759204nat, p()));
    t = fp_mul(&t, x);
    proof { lemma_pow_m_mul_base(xv, 62877838863980062404351125705462868536004661759204nat, p()); }
    assert(fp(t) == pow_m(xv, 62877838863980062404351125705462868536004661759205nat, p()));
    t = fp_square(&t);
    proof { lemma_pow_m_mul(xv, 62877838863980062404351125705462868536004661759205nat, 62877838863980062404351125705462868536004661759205nat, p()); }
    assert(fp(t) == pow_m(xv, 125755677727960124808702251410925737072009323518410nat, p()));
    t = fp_square(&t);
    proof { lemma_pow_m_mul(xv, 125755677727960124808702251410925737072009323518410nat, 125755677727960124808702251410925737072009323518410nat, p()); }
    assert(fp(t) == pow_m(xv, 251511355455920249617404502821851474144018647036820nat, p()));
    t = fp_mul(&t, x);
    proof { lemma_pow_m_mul_base(xv, 251511355455920249617404502821851474144018647036820nat, p()); }
    assert(fp(t) == pow_m(xv, 251511355455920249617404502821851474144018647036821nat, p()));
    t = fp_square(&t);
    proof { lemma_pow_m_mul(xv, 251511355455920249617404502821851474144018647036821nat, 251511355455920249617404502821851474144018647036821nat, p()); }
    assert(fp(t) == pow_m(xv, 503022710911840499234809005643702948288037294073642nat, p()));
    t = fp_square(&t);
    proof { lemma_pow_m_mul(xv, 503022710911840499234809005643702948288037294073642nat, 503022710911840499234809005643702948288037294073642nat, p()); }
    assert(fp(t) == pow_m(xv, 1006045421823680998469618011287405896576074588147284nat, p()));
    t = fp_square(&t);
    proof { lemma_pow_m_mul(xv, 1006045421823680998469618011287405896576074588147284nat, 1006045421823680998469618011287405896576074588147284nat, p()); }
    assert(fp(t) == pow_m(xv, 2012090843647361996939236022574811793152149176294568nat, p()));
    t = fp_mul(&t, x);
    proof { lemma_pow_m_mul_base(xv, 2012090843647361996939236022574811793152149176294568nat, p()); }
    assert(fp(t) == pow_m(xv, 2012090843647361996939236022574811793152149176294569nat, p()));
    t = fp_square(&t);
    proof { lemma_pow_m_mul(xv, 2012090843647361996939236022574811793152149176294569nat, 2012090843647361996939236022574811793152149176294569nat, p()); }
    assert(fp(t) == pow_m(xv, 4024181687294723993878472045149623586304298352589138nat, p()));
    t = fp_mul(&t, x);
    proof { lemma_pow_m_mul_base(xv, 4024181687294723993878472045149623586304298352589138nat, p()); }
    assert(fp(t) == pow_m(xv, 4024181687294723993878472045149623586304298352589139nat, p()));
    t = fp_square(&t);
    proof { lemma_pow_m_mul(xv, 4024181687294723993878472045149623586304298352589139nat, 4024181687294723993878472045149623586304298352589139nat, p()); }
    assert(fp(t) == pow_m(xv, 8048363374589447987756944090299247172608596705178278nat, p()));
    t = fp_mul(&t, x);
    proof { lemma_pow_m_mul_base(xv, 8048363374589447987756944090299247172608596705178278nat, p()); }
    assert(fp(t) == pow_m(xv, 8048363374589447987756944090299247172608596705178279nat, p()));
    t = fp_square(&t);
    proof { lemma_pow_m_mul(xv, 8048363374589447987756944090299247172608596705178279nat, 8048363374589447987756944090299247172608596705178279nat, p()); }
    assert(fp(t) == pow_m(xv, 16096726749178895975513888180598494345217193410356558nat, p()));
    t = fp_square(&t);
    proof { lemma_pow_m_mul(xv, 16096726749178895975513888180598494345217193410356558nat, 16096726749178895975513888180598494345217193410356558nat, p()); }
    assert(fp(t) == pow_m(xv, 32193453498357791951027776361196988690434386820713116nat, p()));
    t = fp_mul(&t, x);
    proof { lemma_pow_m_mul_base(xv, 32193453498357791951027776361196988690434386820713116nat, p()); }
    assert(fp(t) == pow_m(xv, 32193453498357791951027776361196988690434386820713117nat, p()));
    t = fp_square(&t);
    proof { lemma_pow_m_mul(xv, 32193453498357791951027776361196988690434386820713117nat, 32193453498357791951027776361196988690434386820713117nat, p()); }
    assert(fp(t) == pow_m(xv, 64386906996715583902055552722393977380868773641426234nat, p()));
    t = fp_mul(&t, x);
    proof { lemma_pow_m_mul_base(xv, 64386906996715583902055552722393977380868773641426234nat, p()); }
    assert(fp(t) == pow_m(xv, 64386906996715583902055552722393977380868773641426235nat, p()));
    t = fp_square(&t);
    proof { lemma_pow_m_mul(xv, 64386906996715583902055552722393977380868773641426235nat, 64386906996715583902055552722393977380868773641426235nat, p()); }
    assert(fp(t) == pow_m(xv, 128773813993431167804111105444787954761737547282852470nat, p()));
    t = fp_square(&t);
    proof { lemma_pow_m_mul(xv, 128773813993431167804111105444787954761737547282852470nat, 128773813993431167804111105444787954761737547282852470nat, p()); }
    assert(fp(t) == pow_m(xv, 257547627986862335608222210889575909523475094565704940nat, p()));
    t = fp_square(&t);
    proof { lemma_pow_m_mul(xv, 257547627986862335608222210889575909523475094565704940nat, 257547627986862335608222210889575909523475094565704940nat, p()); }
    assert(fp(t) == pow_m(xv, 515095255973724671216444421779151819046950189131409880nat, p()));
    t = fp_square(&t);
    proof { lemma_pow_m_mul(xv, 515095255973724671216444421779151819046950189131409880nat, 515095255973724671216444421779151819046950189131409880nat, p()); }
    assert(fp(t) == pow_m(xv, 1030190511947449342432888843558303638093900378262819760nat, p()));
    t = fp_square(&t);
    proof { lemma_pow_m_mul(xv, 1030190511947449342432888843558303638093900378262819760nat, 1030190511947449342432888843558303638093900378262819760nat, p()); }
    assert(fp(t) == pow_m(xv, 2060381023894898684865777687116607276187800756525639520nat, p()));
    t = fp_square(&t);
    proof { lemma_pow_m_mul(xv, 2060381023894898684865777687116607276187800756525639520nat, 2060381023894898684865777687116607276187800756525639520nat, p()); }
    assert(fp(t) == pow_m(xv, 4120762047789797369731555374233214552375601513051279040nat, p()));
    t = fp_mul(&t, x);
    proof { lemma_pow_m_mul_base(xv, 4120762047789797369731555374233214552375601513051279040nat, p()); }
    assert(fp(t) == pow_m(xv, 4120762047789797369731555374233214552375601513051279041nat, p()));
    t = fp_square(&t);
    proof { lemma_pow_m_mul(xv, 4120762047789797369731555374233214552375601513051279041nat, 4120762047789797369731555374233214552375601513051279041nat, p()); }
    assert(fp(t) == pow_m(xv, 8241524095579594739463110748466429104751203026102558082nat, p()));
    t = fp_mul(&t, x);
    proof { lemma_pow_m_mul_base(xv, 8241524095579594739463110748466429104751203026102558082nat, p()); }
    assert(fp(t) == pow_m(xv, 8241524095579594739463110748466429104751203026102558083nat, p()));
    t = fp_square(&t);
    proof { lemma_pow_m_mul(xv, 8241524095579594739463110748466429104751203026102558083nat, 8241524095579594739463110748466429104751203026102558083nat, p()); }
    assert(fp(t) == pow_m(xv, 16483048191159189478926221496932858209502406052205116166nat, p()));
    t = fp_square(&t);
    proof { lemma_pow_m_mul(xv, 16483048191159189478926221496932858209502406052205116166nat, 16483048191159189478926221496932858209502406052205116166nat, p()); }
    assert(fp(t) == pow_m(xv, 32966096382318378957852442993865716419004812104410232332nat, p()));
    t = fp_square(&t);
    proof { lemma_pow_m_mul(xv, 32966096382318378957852442993865716419004812104410232332nat, 32966096382318378957852442993865716419004812104410232332nat, p()); }
    assert(fp(t) == pow_m(xv, 65932192764636757915704885987731432838009624208820464664nat, p()));
    t = fp_square(&t);
    proof { lemma_pow_m_mul(xv, 65932192764636757915704885987731432838009624208820464664nat, 65932192764636757915704885987731432838009624208820464664nat, p()); }
    assert(fp(t) == pow_m(xv, 131864385529273515831409771975462865676019248417640929328nat, p()));
    t = fp_square(&t);
    proof { lemma_pow_m_mul(xv, 131864385529273515831409771975462865676019248417640929328nat, 131864385529273515831409771975462865676019248417640929328nat, p()); }
    assert(fp(t) == pow_m(xv, 263728771058547031662819543950925731352038496835281858656nat, p()));
    t = fp_square(&t);
    proof { lemma_pow_m_mul(xv, 263728771058547031662819543950925731352038496835281858656nat, 263728771058547031662819543950925731352038496835281858656nat, p()); }
    assert(fp(t) == pow_m(xv, 527457542117094063325639087901851462704076993670563717312nat, p()));
    t = fp_mul(&t, x);
    proof { lemma_pow_m_mul_base(xv, 527457542117094063325639087901851462704076993670563717312nat, p()); }
    assert(fp(t) == pow_m(xv, 527457542117094063325639087901851462704076993670563717313nat, p()));
    t = fp_square(&t);
    proof { lemma_pow_m_mul(xv, 527457542117094063325639087901851462704076993670563717313nat, 527457542117094063325639087901851462704076993670563717313nat, p()); }
    assert(fp(t) == pow_m(xv, 1054915084234188126651278175803702925408153987341127434626nat, p()));
    t = fp_mul(&t, x);
    proof { lemma_pow_m_mul_base(xv, 1054915084234188126651278175803702925408153987341127434626nat, p()); }
    assert(fp(t) == pow_m(xv, 1054915084234188126651278175803702925408153987341127434627nat, p()));
    t = fp_square(&t);
    proof { lemma_pow_m_mul(xv, 1054915084234188126651278175803702925408153987341127434627nat, 1054915084234188126651278175803702925408153987341127434627nat, p()); }
    assert(fp(t) == pow_m(xv, 2109830168468376253302556351607405850816307974682254869254nat, p()));
    t = fp_square(&t);
    proof { lemma_pow_m_mul(xv, 2109830168468376253302556351607405850816307974682254869254nat, 2109830168468376253302556351607405850816307974682254869254nat, p()); }
    assert(fp(t) == pow_m(xv, 4219660336936752506605112703214811701632615949364509738508nat, p()));
    t = fp_square(&t);
    proof { lemma_pow_m_mul(xv, 4219660336936752506605112703214811701632615949364509738508nat, 4219660336936752506605112703214811701632615949364509738508nat, p()); }
    assert(fp(t) == pow_m(xv, 8439320673873505013210225406429623403265231898729019477016nat, p()));
    t = fp_square(&t);
    proof { lemma_pow_m_mul(xv, 8439320673873505013210225406429623403265231898729019477016nat, 8439320673873505013210225406429623403265231898729019477016nat, p()); }
    assert(fp(t) == pow_m(xv, 16878641347747010026420450812859246806530463797458038954032nat, p()));
    t = fp_mul(&t, x);
    proof { lemma_pow_m_mul_base(xv, 16878641347747010026420450812859246806530463797458038954032nat, p()); }
    assert(fp(t) == pow_m(xv, 16878641347747010026420450812859246806530463797458038954033nat, p()));
    t = fp_square(&t);
    proof { lemma_pow_m_mul(xv, 16878641347747010026420450812859246806530463797458038954033nat, 16878641347747010026420450812859246806530463797458038954033nat, p()); }
    assert(fp(t) == pow_m(xv, 33757282695494020052840901625718493613060927594916077908066nat, p()));
    t = fp_mul(&t, x);
    proof { lemma_pow_m_mul_base(xv, 33757282695494020052840901625718493613060927594916077908066nat, p()); }
    assert(fp(t) == pow_m(xv, 33757282695494020052840901625718493613060927594916077908067nat, p()));
    t = fp_square(&t);
    proof { lemma_pow_m_mul(xv, 33757282695494020052840901625718493613060927594916077908067nat, 33757282695494020052840901625718493613060927594916077908067nat, p()); }
    assert(fp(t) == pow_m(xv, 67514565390988040105681803251436987226121855189832155816134nat, p()));
    t = fp_square(&t);
    proof { lemma_pow_m_mul(xv, 67514565390988040105681803251436987226121855189832155816134nat, 67514565390988040105681803251436987226121855189832155816134nat, p()); }
    assert(fp(t) == pow_m(xv, 135029130781976080211363606502873974452243710379664311632268nat, p()));
    t = fp_square(&t);
    proof { lemma_pow_m_mul(xv, 135029130781976080211363606502873974452243710379664311632268nat, 135029130781976080211363606502873974452243710379664311632268nat, p()); }
    assert(fp(t) == pow_m(xv, 270058261563952160422727213005747948904487420759328623264536nat, p()));
    t = fp_square(&t);
    proof { lemma_pow_m_mul(xv, 270058261563952160422727213005747948904487420759328623264536nat, 270058261563952160422727213005747948904487420759328623264536nat, p()); }
    assert(fp(t) == pow_m(xv, 540116523127904320845454426011495897808974841518657246529072nat, p()));
    t = fp_square(&t);
    proof { lemma_pow_m_mul(xv, 540116523127904320845454426011495897808974841518657246529072nat, 540116523127904320845454426011495897808974841518657246529072nat, p()); }
    assert(fp(t) == pow_m(xv, 1080233046255808641690908852022991795617949683037314493058144nat, p()));
    t = fp_mul(&t, x);
    proof { lemma_pow_m_mul_base(xv, 1080233046255808641690908852022991795617949683037314493058144nat, p()); }
    assert(fp(t) == pow_m(xv, 1080233046255808641690908852022991795617949683037314493058145nat, p()));
    t = fp_square(&t);
    proof { lemma_pow_m_mul(xv, 1080233046255808641690908852022991795617949683037314493058145nat, 1080233046255808641690908852022991795617949683037314493058145nat, p()); }
    assert(fp(t) == pow_m(xv, 2160466092511617283381817704045983591235899366074628986116290nat, p()));
    t = fp_square(&t);
    proof { lemma_pow_m_mul(xv, 2160466092511617283381817704045983591235899366074628986116290nat, 2160466092511617283381817704045983591235899366074628986116290nat, p()); }
    assert(fp(t) == pow_m(xv, 4320932185023234566763635408091967182471798732149257972232580nat, p()));
    t = fp_mul(&t, x);
    proof { lemma_pow_m_mul_base(xv, 4320932185023234566763635408091967182471798732149257972232580nat, p()); }
    assert(fp(t) == pow_m(xv, 4320932185023234566763635408091967182471798732149257972232581nat, p()));
    t = fp_square(&t);
    proof { lemma_pow_m_mul(xv, 4320932185023234566763635408091967182471798732149257972232581nat, 4320932185023234566763635408091967182471798732149257972232581nat, p()); }
    assert(fp(t) == pow_m(xv, 8641864370046469133527270816183934364943597464298515944465162nat, p()));
    t = fp_square(&t);
    proof { lemma_pow_m_mul(xv, 8641864370046469133527270816183934364943597464298515944465162nat, 8641864370046469133527270816183934364943597464298515944465162nat, p()); }
    assert(fp(t) == pow_m(xv, 17283728740092938267054541632367868729887194928597031888930324nat, p()));
    t = fp_mul(&t, x);
    proof { lemma_pow_m_mul_base(xv, 17283728740092938267054541632367868729887194928597031888930324nat, p()); }
    assert(fp(t) == pow_m(xv, 17283728740092938267054541632367868729887194928597031888930325nat, p()));
    t = fp_square(&t);
    proof { lemma_pow_m_mul(xv, 17283728740092938267054541632367868729887194928597031888930325nat, 17283728740092938267054541632367868729887194928597031888930325nat, p()); }
    assert(fp(t) == pow_m(xv, 34567457480185876534109083264735737459774389857194063777860650nat, p()));
    t = fp_mul(&t, x);
    proof { lemma_pow_m_mul_base(xv, 34567457480185876534109083264735737459774389857194063777860650nat, p()); }
    assert(fp(t) == pow_m(xv, 34567457480185876534109083264735737459774389857194063777860651nat, p()));
    t = fp_square(&t);
    proof { lemma_pow_m_mul(xv, 34567457480185876534109083264735737459774389857194063777860651nat, 34567457480185876534109083264735737459774389857194063777860651nat, p()); }
    assert(fp(t) == pow_m(xv, 69134914960371753068218166529471474919548779714388127555721302nat, p()));
    t = fp_square(&t);
    proof { lemma_pow_m_mul(xv, 69134914960371753068218166529471474919548779714388127555721302nat, 69134914960371753068218166529471474919548779714388127555721302nat, p()); }
    assert(fp(t) == pow_m(xv, 138269829920743506136436333058942949839097559428776255111442604nat, p()));
    t = fp_mul(&t, x);
    proof { lemma_pow_m_mul_base(xv, 138269829920743506136436333058942949839097559428776255111442604nat, p()); }
    assert(fp(t) == pow_m(xv, 138269829920743506136436333058942949839097559428776255111442605nat, p()));
    t = fp_square(&t);
    proof { lemma_pow_m_mul(xv, 138269829920743506136436333058942949839097559428776255111442605nat, 138269829920743506136436333058942949839097559428776255111442605nat, p()); }
    assert(fp(t) == pow_m(xv, 276539659841487012272872666117885899678195118857552510222885210nat, p()));
    t = fp_square(&t);
    proof { lemma_pow_m_mul(xv, 276539659841487012272872666117885899678195118857552510222885210nat, 276539659841487012272872666117885899678195118857552510222885210nat, p()); }
    assert(fp(t) == pow_m(xv, 553079319682974024545745332235771799356390237715105020445770420nat, p()));
    t = fp_square(&t);
    proof { lemma_pow_m_mul(xv, 553079319682974024545745332235771799356390237715105020445770420nat, 553079319682974024545745332235771799356390237715105020445770420nat, p()); }
    assert(fp(t) == pow_m(xv, 1106158639365948049091490664471543598712780475430210040891540840nat, p()));
    t = fp_mul(&t, x);
    proof { lemma_pow_m_mul_base(xv, 1106158639365948049091490664471543598712780475430210040891540840nat, p()); }
    assert(fp(t) == pow_m(xv, 1106158639365948049091490664471543598712780475430210040891540841nat, p()));
    t = fp_square(&t);
    proof { lemma_pow_m_mul(xv, 1106158639365948049091490664471543598712780475430210040891540841nat, 1106158639365948049091490664471543598712780475430210040891540841nat, p()); }
    assert(fp(t) == pow_m(xv, 2212317278731896098182981328943087197425560950860420081783081682nat, p()));
    t = fp_mul(&t, x);
    proof { lemma_pow_m_mul_base(xv, 2212317278731896098182981328943087197425560950860420081783081682nat, p()); }
    assert(fp(t) == pow_m(xv, 2212317278731896098182981328943087197425560950860420081783081683nat, p()));
    t = fp_square(&t);
    proof { lemma_pow_m_mul(xv, 2212317278731896098182981328943087197425560950860420081783081683nat, 2212317278731896098182981328943087197425560950860420081783081683nat, p()); }
    assert(fp(t) == pow_m(xv, 4424634557463792196365962657886174394851121901720840163566163366nat, p()));
    t = fp_mul(&t, x);
    proof { lemma_pow_m_mul_base(xv, 4424634557463792196365962657886174394851121901720840163566163366nat, p()); }
    assert(fp(t) == pow_m(xv, 4424634557463792196365962657886174394851121901720840163566163367nat, p()));
    t = fp_square(&t);
    proof { lemma_pow_m_mul(xv, 4424634557463792196365962657886174394851121901720840163566163367nat, 4424634557463792196365962657886174394851121901720840163566163367nat, p()); }
    assert(fp(t) == pow_m(xv, 8849269114927584392731925315772348789702243803441680327132326734nat, p()));
    t = fp_mul(&t, x);
    proof { lemma_pow_m_mul_base(xv, 8849269114927584392731925315772348789702243803441680327132326734nat, p()); }
    assert(fp(t) == pow_m(xv, 8849269114927584392731925315772348789702243803441680327132326735nat, p()));
    t = fp_square(&t);
    proof { lemma_pow_m_mul(xv, 8849269114927584392731925315772348789702243803441680327132326735nat, 8849269114927584392731925315772348789702243803441680327132326735nat, p()); }
    assert(fp(t) == pow_m(xv, 17698538229855168785463850631544697579404487606883360654264653470nat, p()));
    t = fp_square(&t);
    proof { lemma_pow_m_mul(xv, 17698538229855168785463850631544697579404487606883360654264653470nat, 17698538229855168785463850631544697579404487606883360654264653470nat, p()); }
    assert(fp(t) == pow_m(xv, 35397076459710337570927701263089395158808975213766721308529306940nat, p()));
    t = fp_square(&t);
    proof { lemma_pow_m_mul(xv, 35397076459710337570927701263089395158808975213766721308529306940nat, 35397076459710337570927701263089395158808975213766721308529306940nat, p()); }
    assert(fp(t) == pow_m(xv, 70794152919420675141855402526178790317617950427533442617058613880nat, p()));
    t = fp_mul(&t, x);
    proof { lemma_pow_m_mul_base(xv, 70794152919420675141855402526178790317617950427533442617058613880nat, p()); }
    assert(fp(t) == pow_m(xv, 70794152919420675141855402526178790317617950427533442617058613881nat, p()));
    t = fp_square(&t);
    proof { lemma_pow_m_mul(xv, 70794152919420675141855402526178790317617950427533442617058613881nat, 70794152919420675141855402526178790317617950427533442617058613881nat, p()); }
    assert(fp(t) == pow_m(xv, 141588305838841350283710805052357580635235900855066885234117227762nat, p()));
    t = fp_square(&t);
    proof { lemma_pow_m_mul(xv, 141588305838841350283710805052357580635235900855066885234117227762nat, 141588305838841350283710805052357580635235900855066885234117227762nat, p()); }
    assert(fp(t) == pow_m(xv, 283176611677682700567421610104715161270471801710133770468234455524nat, p()));
    t = fp_mul(&t, x);
    proof { lemma_pow_m_mul_base(xv, 283176611677682700567421610104715161270471801710133770468234455524nat, p()); }
    assert(fp(t) == pow_m(xv, 283176611677682700567421610104715161270471801710133770468234455525nat, p()));
    t
}

/// One stage of the square-and-multiply scan of the exponent.
fn scan_stage_5(x: &Felt, t: Felt) -> (r: Felt)
    requires
        fp(t) == pow_m(fp(*x), 283176611677682700567421610104715161270471801710133770468234455525nat, p()),
    ensures
        fp(r) == pow_m(fp(*x), 10202512662653211651359419051590096544770385605486729051577936245429382537079320444nat, p()),
{
    let ghost xv: int = fp(*x);
    let mut t = t;
    t = fp_square(&t);
    proof { lemma_pow_m_mul(xv, 283176611677682700567421610104715161270471801710133770468234455525nat, 283176611677682700567421610104715161270471801710133770468234455525nat, p()); }
    assert(fp(t) == pow_m(xv, 566353223355365401134843220209430322540943603420267540936468911050nat, p()));
    t = fp_mul(&t, x);
    proof { lemma_pow_m_mul_base(xv, 566353223355365401134843220209430322540943603420267540936468911050nat, p()); }
    assert(fp(t) == pow_m(xv, 566353223355365401134843220209430322540943603420267540936468911051nat, p()));
    t = fp_square(&t);
    proof { lemma_pow_m_mul(xv, 566353223355365401134843220209430322540943603420267540936468911051nat, 566353223355365401134843220209430322540943603420267540936468911051nat, p()); }
    assert(fp(t) == pow_m(xv, 1132706446710730802269686440418860645081887206840535081872937822102nat, p()));
    t = fp_mul(&t, x);
    proof { lemma_pow_m_mul_base(xv, 1132706446710730802269686440418860645081887206840535081872937822102nat, p()); }
    assert(fp(t) == pow_m(xv, 1132706446710730802269686440418860645081887206840535081872937822103nat, p()));
    t = fp_square(&t);
    proof { lemma_pow_m_mul(xv, 1132706446710730802269686440418860645081887206840535081872937822103nat, 1132706446710730802269686440418860645081887206840535081872937822103nat, p()); }
    assert(fp(t) == pow_m(xv, 2265412893421461604539372880837721290163774413681070163745875644206nat, p()));
    t = fp_mul(&t, x);
    proof { lemma_pow_m_mul_base(xv, 2265412893421461604539372880837721290163774413681070163745875644206nat, p()); }
    assert(fp(t) == pow_m(xv, 2265412893421461604539372880837721290163774413681070163745875644207nat, p()));
    t = fp_square(&t);
    proof { lemma_pow_m_mul(xv, 2265412893421461604539372880837721290163774413681070163745875644207nat, 2265412893421461604539372880837721290163774413681070163745875644207nat, p()); }
    assert(fp(t) == pow_m(xv, 4530825786842923209078745761675442580327548827362140327491751288414nat, p()));
    t = fp_mul(&t, x);
    proof { lemma_pow_m_mul_base(xv, 4530825786842923209078745761675442580327548827362140327491751288414nat, p()); }
    assert(fp(t) == pow_m(xv, 4530825786842923209078745761675442580327548827362140327491751288415nat, p()));
    t = fp_square(&t);
    proof { lemma_pow_m_mul(xv, 4530825786842923209078745761675442580327548827362140327491751288415nat, 4530825786842923209078745761675442580327548827362140327491751288415nat, p()); }
    assert(fp(t) == pow_m(xv, 9061651573685846418157491523350885160655097654724280654983502576830nat, p()));
    t = fp_square(&t);
    proof { lemma_pow_m_mul(xv, 9061651573685846418157491523350885160655097654724280654983502576830nat, 9061651573685846418157491523350885160655097654724280654983502576830nat, p()); }
    assert(fp(t) == pow_m(xv, 18123303147371692836314983046701770321310195309448561309967005153660nat, p()));
    t = fp_mul(&t, x);
    proof { lemma_pow_m_mul_base(xv, 18123303147371692836314983046701770321310195309448561309967005153660nat, p()); }
    assert(fp(t) == pow_m(xv, 18123303147371692836314983046701770321310195309448561309967005153661nat, p()));
    t = fp_square(&t);
    proof { lemma_pow_m_mul(xv, 18123303147371692836314983046701770321310195309448561309967005153661nat, 18123303147371692836314983046701770321310195309448561309967005153661nat, p()); }
    assert(fp(t) == pow_m(xv, 36246606294743385672629966093403540642620390618897122619934010307322nat, p()));
    t = fp_mul(&t, x);
    proof { lemma_pow_m_mul_base(xv, 36246606294743385672629966093403540642620390618897122619934010307322nat, p()); }
    assert(fp(t) == pow_m(xv, 36246606294743385672629966093403540642620390618897122619934010307323nat, p()));
    t = fp_square(&t);
    proof { lemma_pow_m_mul(xv, 36246606294743385672629966093403540642620390618897122619934010307323nat, 36246606294743385672629966093403540642620390618897122619934010307323nat, p()); }
    assert(fp(t) == pow_m(xv, 72493212589486771345259932186807081285240781237794245239868020614646nat, p()));
    t = fp_square(&t);
    proof { lemma_pow_m_mul(xv, 72493212589486771345259932186807081285240781237794245239868020614646nat, 72493212589486771345259932186807081285240781237794245239868020614646nat, p()); }
    assert(fp(t) == pow_m(xv, 144986425178973542690519864373614162570481562475588490479736041229292nat, p()));
    t = fp_square(&t);
    proof { lemma_pow_m_mul(xv, 144986425178973542690519864373614162570481562475588490479736041229292nat, 144986425178973542690519864373614162570481562475588490479736041229292nat, p()); }
    assert(fp(t) == pow_m(xv, 289972850357947085381039728747228325140963124951176980959472082458584nat, p()));
    t = fp_mul(&t, x);
    proof { lemma_pow_m_mul_base(xv, 289972850357947085381039728747228325140963124951176980959472082458584nat, p()); }
    assert(fp(t) == pow_m(xv, 289972850357947085381039728747228325140963124951176980959472082458585nat, p()));
    t = fp_square(&t);
    proof { lemma_pow_m_mul(xv, 289972850357947085381039728747228325140963124951176980959472082458585nat, 289972850357947085381039728747228325140963124951176980959472082458585nat, p()); }
    assert(fp(t) == pow_m(xv, 579945700715894170762079457494456650281926249902353961918944164917170nat, p()));
    t = fp_mul(&t, x);
    proof { lemma_pow_m_mul_base(xv, 579945700715894170762079457494456650281926249902353961918944164917170nat, p()); }
    assert(fp(t) == pow_m(xv, 579945700715894170762079457494456650281926249902353961918944164917171nat, p()));
    t = fp_square(&t);
    proof { lemma_pow_m_mul(xv, 579945700715894170762079457494456650281926249902353961918944164917171nat, 579945700715894170762079457494456650281926249902353961918944164917171nat, p()); }
    assert(fp(t) == pow_m(xv, 1159891401431788341524158914988913300563852499804707923837888329834342nat, p()));
    t = fp_mul(&t, x);
    proof { lemma_pow_m_mul_base(xv, 1159891401431788341524158914988913300563852499804707923837888329834342nat, p()); }
    assert(fp(t) == pow_m(xv, 1159891401431788341524158914988913300563852499804707923837888329834343nat, p()));
    t = fp_square(&t);
    proof { lemma_pow_m_mul(xv, 1159891401431788341524158914988913300563852499804707923837888329834343nat, 1159891401431788341524158914988913300563852499804707923837888329834343nat, p()); }
    assert(fp(t) == pow_m(xv, 2319782802863576683048317829977826601127704999609415847675776659668686nat, p()));
    t = fp_square(&t);
    proof { lemma_pow_m_mul(xv, 2319782802863576683048317829977826601127704999609415847675776659668686nat, 2319782802863576683048317829977826601127704999609415847675776659668686nat, p()); }
    assert(fp(t) == pow_m(xv, 4639565605727153366096635659955653202255409999218831695351553319337372nat, p()));
    t = fp_mul(&t, x);
    proof { lemma_pow_m_mul_base(xv, 4639565605727153366096635659955653202255409999218831695351553319337372nat, p()); }
    assert(fp(t) == pow_m(xv, 4639565605727153366096635659955653202255409999218831695351553319337373nat, p()));
    t = fp_square(&t);
    proof { lemma_pow_m_mul(xv, 4639565605727153366096635659955653202255409999218831695351553319337373nat, 4639565605727153366096635659955653202255409999218831695351553319337373nat, p()); }
    assert(fp(t) == pow_m(xv, 9279131211454306732193271319911306404510819998437663390703106638674746nat, p()));
    t = fp_square(&t);
    proof { lemma_pow_m_mul(xv, 9279131211454306732193271319911306404510819998437663390703106638674746nat, 9279131211454306732193271319911306404510819998437663390703106638674746nat, p()); }
    assert(fp(t) == pow_m(xv, 18558262422908613464386542639822612809021639996875326781406213277349492nat, p()));
    t = fp_mul(&t, x);
    proof { lemma_pow_m_mul_base(xv, 18558262422908613464386542639822612809021639996875326781406213277349492nat, p()); }
    assert(fp(t) == pow_m(xv, 18558262422908613464386542639822612809021639996875326781406213277349493nat, p()));
    t = fp_square(&t);
    proof { lemma_pow_m_mul(xv, 18558262422908613464386542639822612809021639996875326781406213277349493nat, 18558262422908613464386542639822612809021639996875326781406213277349493nat, p()); }
    assert(fp(t) == pow_m(xv, 37116524845817226928773085279645225618043279993750653562812426554698986nat, p()));
    t = fp_square(&t);
    proof { lemma_pow_m_mul(xv, 37116524845817226928773085279645225618043279993750653562812426554698986nat, 37116524845817226928773085279645225618043279993750653562812426554698986nat, p()); }
    assert(fp(t) == pow_m(xv, 74233049691634453857546170559290451236086559987501307125624853109397972nat, p()));
    t = fp_mul(&t, x);
    proof { lemma_pow_m_mul_base(xv, 74233049691634453857546170559290451236086559987501307125624853109397972nat, p()); }
    assert(fp(t) == pow_m(xv, 74233049691634453857546170559290451236086559987501307125624853109397973nat, p()));
    t = fp_square(&t);
    proof { lemma_pow_m_mul(xv, 74233049691634453857546170559290451236086559987501307125624853109397973nat, 74233049691634453857546170559290451236086559987501307125624853109397973nat, p()); }
    assert(fp(t) == pow_m(xv, 148466099383268907715092341118580902472173119975002614251249706218795946nat, p()));
    t = fp_square(&t);
    proof { lemma_pow_m_mul(xv, 148466099383268907715092341118580902472173119975002614251249706218795946nat, 148466099383268907715092341118580902472173119975002614251249706218795946nat, p()); }
    assert(fp(t) == pow_m(xv, 296932198766537815430184682237161804944346239950005228502499412437591892nat, p()));
    t = fp_square(&t);
    proof { lemma_pow_m_mul(xv, 296932198766537815430184682237161804944346239950005228502499412437591892nat, 296932198766537815430184682237161804944346239950005228502499412437591892nat, p()); }
    assert(fp(t) == pow_m(xv, 593864397533075630860369364474323609888692479900010457004998824875183784nat, p()));
    t = fp_square(&t);
    proof { lemma_pow_m_mul(xv, 593864397533075630860369364474323609888692479900010457004998824875183784nat, 593864397533075630860369364474323609888692479900010457004998824875183784nat, p()); }
    assert(fp(t) == pow_m(xv, 1187728795066151261720738728948647219777384959800020914009997649750367568nat, p()));
    t = fp_square(&t);
    proof { lemma_pow_m_mul(xv, 1187728795066151261720738728948647219777384959800020914009997649750367568nat, 1187728795066151261720738728948647219777384959800020914009997649750367568nat, p()); }
    assert(fp(t) == pow_m(xv, 2375457590132302523441477457897294439554769919600041828019995299500735136nat, p()));
    t = fp_square(&t);
    proof { lemma_pow_m_mul(xv, 2375457590132302523441477457897294439554769919600041828019995299500735136nat, 2375457590132302523441477457897294439554769919600041828019995299500735136nat, p()); }
    assert(fp(t) == pow_m(xv, 4750915180264605046882954915794588879109539839200083656039990599001470272nat, p()));
    t = fp_square(&t);
    proof { lemma_pow_m_mul(xv, 4750915180264605046882954915794588879109539839200083656039990599001470272nat, 4750915180264605046882954915794588879109539839200083656039990599001470272nat, p()); }
    assert(fp(t) == pow_m(xv, 9501830360529210093765909831589177758219079678400167312079981198002940544nat, p()));
    t = fp_square(&t);
    proof { lemma_pow_m_mul(xv, 9501830360529210093765909831589177758219079678400167312079981198002940544nat, 9501830360529210093765909831589177758219079678400167312079981198002940544nat, p()); }
    assert(fp(t) == pow_m(xv, 19003660721058420187531819663178355516438159356800334624159962396005881088nat, p()));
    t = fp_square(&t);
    proof { lemma_pow_m_mul(xv, 19003660721058420187531819663178355516438159356800334624159962396005881088nat, 19003660721058420187531819663178355516438159356800334624159962396005881088nat, p()); }
    assert(fp(t) == pow_m(xv, 38007321442116840375063639326356711032876318713600669248319924792011762176nat, p()));
    t = fp_square(&t);
    proof { lemma_pow_m_mul(xv, 38007321442116840375063639326356711032876318713600669248319924792011762176nat, 38007321442116840375063639326356711032876318713600669248319924792011762176nat, p()); }
    assert(fp(t) == pow_m(xv, 76014642884233680750127278652713422065752637427201338496639849584023524352nat, p()));
    t = fp_square(&t);
    proof { lemma_pow_m_mul(xv, 76014642884233680750127278652713422065752637427201338496639849584023524352nat, 76014642884233680750127278652713422065752637427201338496639849584023524352nat, p()); }
    assert(fp(t) == pow_m(xv, 152029285768467361500254557305426844131505274854402676993279699168047048704nat, p()));
    t = fp_square(&t);
    proof { lemma_pow_m_mul(xv, 152029285768467361500254557305426844131505274854402676993279699168047048704nat, 152029285768467361500254557305426844131505274854402676993279699168047048704nat, p()); }
    assert(fp(t) == pow_m(xv, 304058571536934723000509114610853688263010549708805353986559398336094097408nat, p()));
    t = fp_square(&t);
    proof { lemma_pow_m_mul(xv, 304058571536934723000509114610853688263010549708805353986559398336094097408nat, 304058571536934723000509114610853688263010549708805353986559398336094097408nat, p()); }
    assert(fp(t) == pow_m(xv, 608117143073869446001018229221707376526021099417610707973118796672188194816nat, p()));
    t = fp_square(&t);
    proof { lemma_pow_m_mul(xv, 608117143073869446001018229221707376526021099417610707973118796672188194816nat, 608117143073869446001018229221707376526021099417610707973118796672188194816nat, p()); }
    assert(fp(t) == pow_m(xv, 1216234286147738892002036458443414753052042198835221415946237593344376389632nat, p()));
    t = fp_square(&t);
    proof { lemma_pow_m_mul(xv, 1216234286147738892002036458443414753052042198835221415946237593344376389632nat, 1216234286147738892002036458443414753052042198835221415946237593344376389632nat, p()); }
    assert(fp(t) == pow_m(xv, 2432468572295477784004072916886829506104084397670442831892475186688752779264nat, p()));
    t = fp_square(&t);
    proof { lemma_pow_m_mul(xv, 2432468572295477784004072916886829506104084397670442831892475186688752779264nat, 2432468572295477784004072916886829506104084397670442831892475186688752779264nat, p()); }
    assert(fp(t) == pow_m(xv, 4864937144590955568008145833773659012208168795340885663784950373377505558528nat, p()));
    t = fp_square(&t);
    proof { lemma_pow_m_mul(xv, 4864937144590955568008145833773659012208168795340885663784950373377505558528nat, 4864937144590955568008145833773659012208168795340885663784950373377505558528nat, p()); }
    assert(fp(t) == pow_m(xv, 9729874289181911136016291667547318024416337590681771327569900746755011117056nat, p()));
    t = fp_mul(&t, x);
    proof { lemma_pow_m_mul_base(xv, 9729874289181911136016291667547318024416337590681771327569900746755011117056nat, p()); }
    assert(fp(t) == pow_m(xv, 9729874289181911136016291667547318024416337590681771327569900746755011117057nat, p()));
    t = fp_square(&t);
    proof { lemma_pow_m_mul(xv, 9729874289181911136016291667547318024416337590681771327569900746755011117057nat, 9729874289181911136016291667547318024416337590681771327569900746755011117057nat, p()); }
    assert(fp(t) == pow_m(xv, 19459748578363822272032583335094636048832675181363542655139801493510022234114nat, p()));
    t = fp_square(&t);
    proof { lemma_pow_m_mul(xv, 19459748578363822272032583335094636048832675181363542655139801493510022234114nat, 19459748578363822272032583335094636048832675181363542655139801493510022234114nat, p()); }
    assert(fp(t) == pow_m(xv, 38919497156727644544065166670189272097665350362727085310279602987020044468228nat, p()));
    t = fp_square(&t);
    proof { lemma_pow_m_mul(xv, 38919497156727644544065166670189272097665350362727085310279602987020044468228nat, 38919497156727644544065166670189272097665350362727085310279602987020044468228nat, p()); }
    assert(fp(t) == pow_m(xv, 77838994313455289088130333340378544195330700725454170620559205974040088936456nat, p()));
    t = fp_mul(&t, x);
    proof { lemma_pow_m_mul_base(xv, 77838994313455289088130333340378544195330700725454170620559205974040088936456nat, p()); }
    assert(fp(t) == pow_m(xv, 77838994313455289088130333340378544195330700725454170620559205974040088936457nat, p()));
    t = fp_square(&t);
    proof { lemma_pow_m_mul(xv, 77838994313455289088130333340378544195330700725454170620559205974040088936457nat, 77838994313455289088130333340378544195330700725454170620559205974040088936457nat, p()); }
    assert(fp(t) == pow_m(xv, 155677988626910578176260666680757088390661401450908341241118411948080177872914nat, p()));
    t = fp_square(&t);
    proof { lemma_pow_m_mul(xv, 155677988626910578176260666680757088390661401450908341241118411948080177872914nat, 155677988626910578176260666680757088390661401450908341241118411948080177872914nat, p()); }
    assert(fp(t) == pow_m(xv, 311355977253821156352521333361514176781322802901816682482236823896160355745828nat, p()));
    t = fp_square(&t);
    proof { lemma_pow_m_mul(xv, 311355977253821156352521333361514176781322802901816682482236823896160355745828nat, 311355977253821156352521333361514176781322802901816682482236823896160355745828nat, p()); }
    assert(fp(t) == pow_m(xv, 622711954507642312705042666723028353562645605803633364964473647792320711491656nat, p()));
    t = fp_mul(&t, x);
    proof { lemma_pow_m_mul_base(xv, 622711954507642312705042666723028353562645605803633364964473647792320711491656nat, p()); }
    assert(fp(t) == pow_m(xv, 622711954507642312705042666723028353562645605803633364964473647792320711491657nat, p()));
    t = fp_square(&t);
    proof { lemma_pow_m_mul(xv, 622711954507642312705042666723028353562645605803633364964473647792320711491657nat, 622711954507642312705042666723028353562645605803633364964473647792320711491657nat, p()); }
    assert(fp(t) == pow_m(xv, 1245423909015284625410085333446056707125291211607266729928947295584641422983314nat, p()));
    t = fp_mul(&t, x);
    proof { lemma_pow_m_mul_base(xv, 1245423909015284625410085333446056707125291211607266729928947295584641422983314nat, p()); }
    assert(fp(t) == pow_m(xv, 1245423909015284625410085333446056707125291211607266729928947295584641422983315nat, p()));
    t = fp_square(&t);
    proof { lemma_pow_m_mul(xv, 1245423909015284625410085333446056707125291211607266729928947295584641422983315nat, 1245423909015284625410085333446056707125291211607266729928947295584641422983315nat, p()); }
    assert(fp(t) == pow_m(xv, 2490847818030569250820170666892113414250582423214533459857894591169282845966630nat, p()));
    t = fp_square(&t);
    proof { lemma_pow_m_mul(xv, 2490847818030569250820170666892113414250582423214533459857894591169282845966630nat, 2490847818030569250820170666892113414250582423214533459857894591169282845966630nat, p()); }
    assert(fp(t) == pow_m(xv, 4981695636061138501640341333784226828501164846429066919715789182338565691933260nat, p()));
    t = fp_mul(&t, x);
    proof { lemma_pow_m_mul_base(xv, 4981695636061138501640341333784226828501164846429066919715789182338565691933260nat, p()); }
    assert(fp(t) == pow_m(xv, 4981695636061138501640341333784226828501164846429066919715789182338565691933261nat, p()));
    t = fp_square(&t);
    proof { lemma_pow_m_mul(xv, 4981695636061138501640341333784226828501164846429066919715789182338565691933261nat, 4981695636061138501640341333784226828501164846429066919715789182338565691933261nat, p()); }
    assert(fp(t) == pow_m(xv, 9963391272122277003280682667568453657002329692858133839431578364677131383866522nat, p()));
    t = fp_mul(&t, x);
    proof { lemma_pow_m_mul_base(xv, 9963391272122277003280682667568453657002329692858133839431578364677131383866522nat, p()); }
    assert(fp(t) == pow_m(xv, 9963391272122277003280682667568453657002329692858133839431578364677131383866523nat, p()));
    t = fp_square(&t);
    proof { lemma_pow_m_mul(xv, 9963391272122277003280682667568453657002329692858133839431578364677131383866523nat, 9963391272122277003280682667568453657002329692858133839431578364677131383866523nat, p()); }
    assert(fp(t) == pow_m(xv, 19926782544244554006561365335136907314004659385716267678863156729354262767733046nat, p()));
    t = fp_mul(&t, x);
    proof { lemma_pow_m_mul_base(xv, 19926782544244554006561365335136907314004659385716267678863156729354262767733046nat, p()); }
    assert(fp(t) == pow_m(xv, 19926782544244554006561365335136907314004659385716267678863156729354262767733047nat, p()));
    t = fp_square(&t);
    proof { lemma_pow_m_mul(xv, 19926782544244554006561365335136907314004659385716267678863156729354262767733047nat, 19926782544244554006561365335136907314004659385716267678863156729354262767733047nat, p()); }
    assert(fp(t) == pow_m(xv, 39853565088489108013122730670273814628009318771432535357726313458708525535466094nat, p()));
    t = fp_mul(&t, x);
    proof { lemma_pow_m_mul_base(xv, 39853565088489108013122730670273814628009318771432535357726313458708525535466094nat, p()); }
    assert(fp(t) == pow_m(xv, 39853565088489108013122730670273814628009318771432535357726313458708525535466095nat, p()));
    t = fp_square(&t);
    proof { lemma_pow_m_mul(xv, 39853565088489108013122730670273814628009318771432535357726313458708525535466095nat, 39853565088489108013122730670273814628009318771432535357726313458708525535466095nat, p()); }
    assert(fp(t) == pow_m(xv, 79707130176978216026245461340547629256018637542865070715452626917417051070932190nat, p()));
    t = fp_square(&t);
    proof { lemma_pow_m_mul(xv, 79707130176978216026245461340547629256018637542865070715452626917417051070932190nat, 79707130176978216026245461340547629256018637542865070715452626917417051070932190nat, p()); }
    assert(fp(t) == pow_m(xv, 159414260353956432052490922681095258512037275085730141430905253834834102141864380nat, p()));
    t = fp_mul(&t, x);
    proof { lemma_pow_m_mul_base(xv, 159414260353956432052490922681095258512037275085730141430905253834834102141864380nat, p()); }
    assert(fp(t) == pow_m(xv, 159414260353956432052490922681095258512037275085730141430905253834834102141864381nat, p()));
    t = fp_square(&t);
    proof { lemma_pow_m_mul(xv, 159414260353956432052490922681095258512037275085730141430905253834834102141864381nat, 159414260353956432052490922681095258512037275085730141430905253834834102141864381nat, p()); }
    assert(fp(t) == pow_m(xv, 318828520707912864104981845362190517024074550171460282861810507669668204283728762nat, p()));
    t = fp_mul(&t, x);
    proof { lemma_pow_m_mul_base(xv, 318828520707912864104981845362190517024074550171460282861810507669668204283728762nat, p()); }
    assert(fp(t) == pow_m(xv, 318828520707912864104981845362190517024074550171460282861810507669668204283728763nat, p()));
    t = fp_square(&t);
    proof { lemma_pow_m_mul(xv, 318828520707912864104981845362190517024074550171460282861810507669668204283728763nat, 318828520707912864104981845362190517024074550171460282861810507669668204283728763nat, p()); }
    assert(fp(t) == pow_m(xv, 637657041415825728209963690724381034048149100342920565723621015339336408567457526nat, p()));
    t = fp_mul(&t, x);
    proof { lemma_pow_m_mul_base(xv, 637657041415825728209963690724381034048149100342920565723621015339336408567457526nat, p()); }
    assert(fp(t) == pow_m(xv, 637657041415825728209963690724381034048149100342920565723621015339336408567457527nat, p()));
    t = fp_square(&t);
    proof { lemma_pow_m_mul(xv, 637657041415825728209963690724381034048149100342920565723621015339336408567457527nat, 637657041415825728209963690724381034048149100342920565723621015339336408567457527nat, p()); }
    assert(fp(t) == pow_m(xv, 1275314082831651456419927381448762068096298200685841131447242030678672817134915054nat, p()));
    t = fp_mul(&t, x);
    proof { lemma_pow_m_mul_base(xv, 1275314082831651456419927381448762068096298200685841131447242030678672817134915054nat, p()); }
    assert(fp(t) == pow_m(xv, 1275314082831651456419927381448762068096298200685841131447242030678672817134915055nat, p()));
    t = fp_square(&t);
    proof { lemma_pow_m_mul(xv, 1275314082831651456419927381448762068096298200685841131447242030678672817134915055nat, 1275314082831651456419927381448762068096298200685841131447242030678672817134915055nat, p()); }
    assert(fp(t) == pow_m(xv, 2550628165663302912839854762897524136192596401371682262894484061357345634269830110nat, p()));
    t = fp_mul(&t, x);
    proof { lemma_pow_m_mul_base(xv, 2550628165663302912839854762897524136192596401371682262894484061357345634269830110nat, p()); }
    assert(fp(t) == pow_m(xv, 2550628165663302912839854762897524136192596401371682262894484061357345634269830111nat, p()));
    t = fp_square(&t);
    proof { lemma_pow_m_mul(xv, 2550628165663302912839854762897524136192596401371682262894484061357345634269830111nat, 2550628165663302912839854762897524136192596401371682262894484061357345634269830111nat, p()); }
    assert(fp(t) == pow_m(xv, 5101256331326605825679709525795048272385192802743364525788968122714691268539660222nat, p()));
    t = fp_square(&t);
    proof { lemma_pow_m_mul(xv, 5101256331326605825679709525795048272385192802743364525788968122714691268539660222nat, 5101256331326605825679709525795048272385192802743364525788968122714691268539660222nat, p()); }
    assert(fp(t) == pow_m(xv, 10202512662653211651359419051590096544770385605486729051577936245429382537079320444nat, p()));
    t
}

/// One stage of the square-and-multiply scan of the exponent.
fn scan_stage_6(x: &Felt, t: Felt) -> (r: Felt)
    requires
        fp(t) == pow_m(fp(*x), 10202512662653211651359419051590096544770385605486729051577936245429382537079320444nat, p()),
    ensures
        fp(r) == pow_m(fp(*x), 367584257806142167639013583901279295014878574583739607163414948824311733728138765933080219581900904nat, p()),
{
    let ghost xv: int = fp(*x);
    let mut t = t;
    t = fp_mul(&t, x);
    proof { lemma_pow_m_mul_base(xv, 10202512662653211651359419051590096544770385605486729051577936245429382537079320444nat, p()); }
    assert(fp(t) == pow_m(xv, 10202512662653211651359419051590096544770385605486729051577936245429382537079320445nat, p()));
    t = fp_square(&t);
    proof { lemma_pow_m_mul(xv, 10202512662653211651359419051590096544770385605486729051577936245429382537079320445nat, 10202512662653211651359419051590096544770385605486729051577936245429382537079320445nat, p()); }
    assert(fp(t) == pow_m(xv, 20405025325306423302718838103180193089540771210973458103155872490858765074158640890nat, p()));
    t = fp_mul(&t, x);
    proof { lemma_pow_m_mul_base(xv, 20405025325306423302718838103180193089540771210973458103155872490858765074158640890nat, p()); }
    assert(fp(t) == pow_m(xv, 20405025325306423302718838103180193089540771210973458103155872490858765074158640891nat, p()));
    t = fp_square(&t);
    proof { lemma_pow_m_mul(xv, 20405025325306423302718838103180193089540771210973458103155872490858765074158640891nat, 20405025325306423302718838103180193089540771210973458103155872490858765074158640891nat, p()); }
    assert(fp(t) == pow_m(xv, 40810050650612846605437676206360386179081542421946916206311744981717530148317281782nat, p()));
    t = fp_mul(&t, x);
    proof { lemma_pow_m_mul_base(xv, 40810050650612846605437676206360386179081542421946916206311744981717530148317281782nat, p()); }
    assert(fp(t) == pow_m(xv, 40810050650612846605437676206360386179081542421946916206311744981717530148317281783nat, p()));
    t = fp_square(&t);
    proof { lemma_pow_m_mul(xv, 40810050650612846605437676206360386179081542421946916206311744981717530148317281783nat, 40810050650612846605437676206360386179081542421946916206311744981717530148317281783nat, p()); }
    assert(fp(t) == pow_m(xv, 81620101301225693210875352412720772358163084843893832412623489963435060296634563566nat, p()));
    t = fp_square(&t);
    proof { lemma_pow_m_mul(xv, 81620101301225693210875352412720772358163084843893832412623489963435060296634563566nat, 81620101301225693210875352412720772358163084843893832412623489963435060296634563566nat, p()); }
    assert(fp(t) == pow_m(xv, 163240202602451386421750704825441544716326169687787664825246979926870120593269127132nat, p()));
    t = fp_mul(&t, x);
    proof { lemma_pow_m_mul_base(xv, 163240202602451386421750704825441544716326169687787664825246979926870120593269127132nat, p()); }
    assert(fp(t) == pow_m(xv, 163240202602451386421750704825441544716326169687787664825246979926870120593269127133nat, p()));
    t = fp_square(&t);
    proof { lemma_pow_m_mul(xv, 163240202602451386421750704825441544716326169687787664825246979926870120593269127133nat, 163240202602451386421750704825441544716326169687787664825246979926870120593269127133nat, p()); }
    assert(fp(t) == pow_m(xv, 326480405204902772843501409650883089432652339375575329650493959853740241186538254266nat, p()));
    t = fp_square(&t);
    proof { lemma_pow_m_mul(xv, 326480405204902772843501409650883089432652339375575329650493959853740241186538254266nat, 326480405204902772843501409650883089432652339375575329650493959853740241186538254266nat, p()); }
    assert(fp(t) == pow_m(xv, 652960810409805545687002819301766178865304678751150659300987919707480482373076508532nat, p()));
    t = fp_square(&t);
    proof { lemma_pow_m_mul(xv, 652960810409805545687002819301766178865304678751150659300987919707480482373076508532nat, 652960810409805545687002819301766178865304678751150659300987919707480482373076508532nat, p()); }
    assert(fp(t) == pow_m(xv, 1305921620819611091374005638603532357730609357502301318601975839414960964746153017064nat, p()));
    t = fp_square(&t);
    proof { lemma_pow_m_mul(xv, 1305921620819611091374005638603532357730609357502301318601975839414960964746153017064nat, 1305921620819611091374005638603532357730609357502301318601975839414960964746153017064nat, p()); }
    assert(fp(t) == pow_m(xv, 2611843241639222182748011277207064715461218715004602637203951678829921929492306034128nat, p()));
    t = fp_square(&t);
    proof { lemma_pow_m_mul(xv, 2611843241639222182748011277207064715461218715004602637203951678829921929492306034128nat, 2611843241639222182748011277207064715461218715004602637203951678829921929492306034128nat, p()); }
    assert(fp(t) == pow_m(xv, 5223686483278444365496022554414129430922437430009205274407903357659843858984612068256nat, p()));
    t = fp_square(&t);
    proof { lemma_pow_m_mul(xv, 5223686483278444365496022554414129430922437430009205274407903357659843858984612068256nat, 5223686483278444365496022554414129430922437430009205274407903357659843858984612068256nat, p()); }
    assert(fp(t) == pow_m(xv, 10447372966556888730992045108828258861844874860018410548815806715319687717969224136512nat, p()));
    t = fp_square(&t);
    proof { lemma_pow_m_mul(xv, 10447372966556888730992045108828258861844874860018410548815806715319687717969224136512nat, 10447372966556888730992045108828258861844874860018410548815806715319687717969224136512nat, p()); }
    assert(fp(t) == pow_m(xv, 20894745933113777461984090217656517723689749720036821097631613430639375435938448273024nat, p()));
    t = fp_mul(&t, x);
    proof { lemma_pow_m_mul_base(xv, 20894745933113777461984090217656517723689749720036821097631613430639375435938448273024nat, p()); }
    assert(fp(t) == pow_m(xv, 20894745933113777461984090217656517723689749720036821097631613430639375435938448273025nat, p()));
    t = fp_square(&t);
    proof { lemma_pow_m_mul(xv, 20894745933113777461984090217656517723689749720036821097631613430639375435938448273025nat, 20894745933113777461984090217656517723689749720036821097631613430639375435938448273025nat, p()); }
    assert(fp(t) == pow_m(xv, 41789491866227554923968180435313035447379499440073642195263226861278750871876896546050nat, p()));
    t = fp_square(&t);
    proof { lemma_pow_m_mul(xv, 41789491866227554923968180435313035447379499440073642195263226861278750871876896546050nat, 41789491866227554923968180435313035447379499440073642195263226861278750871876896546050nat, p()); }
    assert(fp(t) == pow_m(xv, 83578983732455109847936360870626070894758998880147284390526453722557501743753793092100nat, p()));
    t = fp_square(&t);
    proof { lemma_pow_m_mul(xv, 83578983732455109847936360870626070894758998880147284390526453722557501743753793092100nat, 83578983732455109847936360870626070894758998880147284390526453722557501743753793092100nat, p()); }
    assert(fp(t) == pow_m(xv, 167157967464910219695872721741252141789517997760294568781052907445115003487507586184200nat, p()));
    t = fp_mul(&t, x);
    proof { lemma_pow_m_mul_base(xv, 167157967464910219695872721741252141789517997760294568781052907445115003487507586184200nat, p()); }
    assert(fp(t) == pow_m(xv, 167157967464910219695872721741252141789517997760294568781052907445115003487507586184201nat, p()));
    t = fp_square(&t);
    proof { lemma_pow_m_mul(xv, 167157967464910219695872721741252141789517997760294568781052907445115003487507586184201nat, 167157967464910219695872721741252141789517997760294568781052907445115003487507586184201nat, p()); }
    assert(fp(t) == pow_m(xv, 334315934929820439391745443482504283579035995520589137562105814890230006975015172368402nat, p()));
    t = fp_mul(&t, x);
    proof { lemma_pow_m_mul_base(xv, 334315934929820439391745443482504283579035995520589137562105814890230006975015172368402nat, p()); }
    assert(fp(t) == pow_m(xv, 334315934929820439391745443482504283579035995520589137562105814890230006975015172368403nat, p()));
    t = fp_square(&t);
    proof { lemma_pow_m_mul(xv, 334315934929820439391745443482504283579035995520589137562105814890230006975015172368403nat, 334315934929820439391745443482504283579035995520589137562105814890230006975015172368403nat, p()); }
    assert(fp(t) == pow_m(xv, 668631869859640878783490886965008567158071991041178275124211629780460013950030344736806nat, p()));
    t = fp_square(&t);
    proof { lemma_pow_m_mul(xv, 668631869859640878783490886965008567158071991041178275124211629780460013950030344736806nat, 668631869859640878783490886965008567158071991041178275124211629780460013950030344736806nat, p()); }
    assert(fp(t) == pow_m(xv, 1337263739719281757566981773930017134316143982082356550248423259560920027900060689473612nat, p()));
    t = fp_square(&t);
    proof { lemma_pow_m_mul(xv, 1337263739719281757566981773930017134316143982082356550248423259560920027900060689473612nat, 1337263739719281757566981773930017134316143982082356550248423259560920027900060689473612nat, p()); }
    assert(fp(t) == pow_m(xv, 2674527479438563515133963547860034268632287964164713100496846519121840055800121378947224nat, p()));
    t = fp_mul(&t, x);
    proof { lemma_pow_m_mul_base(xv, 2674527479438563515133963547860034268632287964164713100496846519121840055800121378947224nat, p()); }
    assert(fp(t) == pow_m(xv, 2674527479438563515133963547860034268632287964164713100496846519121840055800121378947225nat, p()));
    t = fp_square(&t);
    proof { lemma_pow_m_mul(xv, 2674527479438563515133963547860034268632287964164713100496846519121840055800121378947225nat, 2674527479438563515133963547860034268632287964164713100496846519121840055800121378947225nat, p()); }
    assert(fp(t) == pow_m(xv, 5349054958877127030267927095720068537264575928329426200993693038243680111600242757894450nat, p()));
    t = fp_mul(&t, x);
    proof { lemma_pow_m_mul_base(xv, 5349054958877127030267927095720068537264575928329426200993693038243680111600242757894450nat, p()); }
    assert(fp(t) == pow_m(xv, 5349054958877127030267927095720068537264575928329426200993693038243680111600242757894451nat, p()));
    t = fp_square(&t);
    proof { lemma_pow_m_mul(xv, 5349054958877127030267927095720068537264575928329426200993693038243680111600242757894451nat, 5349054958877127030267927095720068537264575928329426200993693038243680111600242757894451nat, p()); }
    assert(fp(t) == pow_m(xv, 10698109917754254060535854191440137074529151856658852401987386076487360223200485515788902nat, p()));
    t = fp_square(&t);
    proof { lemma_pow_m_mul(xv, 10698109917754254060535854191440137074529151856658852401987386076487360223200485515788902nat, 10698109917754254060535854191440137074529151856658852401987386076487360223200485515788902nat, p()); }
    assert(fp(t) == pow_m(xv, 21396219835508508121071708382880274149058303713317704803974772152974720446400971031577804nat, p()));
    t = fp_square(&t);
    proof { lemma_pow_m_mul(xv, 21396219835508508121071708382880274149058303713317704803974772152974720446400971031577804nat, 21396219835508508121071708382880274149058303713317704803974772152974720446400971031577804nat, p()); }
    assert(fp(t) == pow_m(xv, 42792439671017016242143416765760548298116607426635409607949544305949440892801942063155608nat, p()));
    t = fp_mul(&t, x);
    proof { lemma_pow_m_mul_base(xv, 42792439671017016242143416765760548298116607426635409607949544305949440892801942063155608nat, p()); }
    assert(fp(t) == pow_m(xv, 42792439671017016242143416765760548298116607426635409607949544305949440892801942063155609nat, p()));
    t = fp_square(&t);
    proof { lemma_pow_m_mul(xv, 42792439671017016242143416765760548298116607426635409607949544305949440892801942063155609nat, 42792439671017016242143416765760548298116607426635409607949544305949440892801942063155609nat, p()); }
    assert(fp(t) == pow_m(xv, 85584879342034032484286833531521096596233214853270819215899088611898881785603884126311218nat, p()));
    t = fp_mul(&t, x);
    proof { lemma_pow_m_mul_base(xv, 85584879342034032484286833531521096596233214853270819215899088611898881785603884126311218nat, p()); }
    assert(fp(t) == pow_m(xv, 85584879342034032484286833531521096596233214853270819215899088611898881785603884126311219nat, p()));
    t = fp_square(&t);
    proof { lemma_pow_m_mul(xv, 85584879342034032484286833531521096596233214853270819215899088611898881785603884126311219nat, 85584879342034032484286833531521096596233214853270819215899088611898881785603884126311219nat, p()); }
    assert(fp(t) == pow_m(xv, 171169758684068064968573667063042193192466429706541638431798177223797763571207768252622438nat, p()));
    t = fp_square(&t);
    proof { lemma_pow_m_mul(xv, 171169758684068064968573667063042193192466429706541638431798177223797763571207768252622438nat, 171169758684068064968573667063042193192466429706541638431798177223797763571207768252622438nat, p()); }
    assert(fp(t) == pow_m(xv, 342339517368136129937147334126084386384932859413083276863596354447595527142415536505244876nat, p()));
    t = fp_square(&t);
    proof { lemma_pow_m_mul(xv, 342339517368136129937147334126084386384932859413083276863596354447595527142415536505244876nat, 342339517368136129937147334126084386384932859413083276863596354447595527142415536505244876nat, p()); }
    assert(fp(t) == pow_m(xv, 684679034736272259874294668252168772769865718826166553727192708895191054284831073010489752nat, p()));
    t = fp_mul(&t, x);
    proof { lemma_pow_m_mul_base(xv, 684679034736272259874294668252168772769865718826166553727192708895191054284831073010489752nat, p()); }
    assert(fp(t) == pow_m(xv, 684679034736272259874294668252168772769865718826166553727192708895191054284831073010489753nat, p()));
    t = fp_square(&t);
    proof { lemma_pow_m_mul(xv, 684679034736272259874294668252168772769865718826166553727192708895191054284831073010489753nat, 684679034736272259874294668252168772769865718826166553727192708895191054284831073010489753nat, p()); }
    assert(fp(t) == pow_m(xv, 1369358069472544519748589336504337545539731437652333107454385417790382108569662146020979506nat, p()));
    t = fp_mul(&t, x);
    proof { lemma_pow_m_mul_base(xv, 1369358069472544519748589336504337545539731437652333107454385417790382108569662146020979506nat, p()); }
    assert(fp(t) == pow_m(xv, 1369358069472544519748589336504337545539731437652333107454385417790382108569662146020979507nat, p()));
    t = fp_square(&t);
    proof { lemma_pow_m_mul(xv, 1369358069472544519748589336504337545539731437652333107454385417790382108569662146020979507nat, 1369358069472544519748589336504337545539731437652333107454385417790382108569662146020979507nat, p()); }
    assert(fp(t) == pow_m(xv, 2738716138945089039497178673008675091079462875304666214908770835580764217139324292041959014nat, p()));
    t = fp_square(&t);
    proof { lemma_pow_m_mul(xv, 2738716138945089039497178673008675091079462875304666214908770835580764217139324292041959014nat, 2738716138945089039497178673008675091079462875304666214908770835580764217139324292041959014nat, p()); }
    assert(fp(t) == pow_m(xv, 5477432277890178078994357346017350182158925750609332429817541671161528434278648584083918028nat, p()));
    t = fp_square(&t);
    proof { lemma_pow_m_mul(xv, 5477432277890178078994357346017350182158925750609332429817541671161528434278648584083918028nat, 5477432277890178078994357346017350182158925750609332429817541671161528434278648584083918028nat, p()); }
    assert(fp(t) == pow_m(xv, 10954864555780356157988714692034700364317851501218664859635083342323056868557297168167836056nat, p()));
    t = fp_mul(&t, x);
    proof { lemma_pow_m_mul_base(xv, 10954864555780356157988714692034700364317851501218664859635083342323056868557297168167836056nat, p()); }
    assert(fp(t) == pow_m(xv, 10954864555780356157988714692034700364317851501218664859635083342323056868557297168167836057nat, p()));
    t = fp_square(&t);
    proof { lemma_pow_m_mul(xv, 10954864555780356157988714692034700364317851501218664859635083342323056868557297168167836057nat, 10954864555780356157988714692034700364317851501218664859635083342323056868557297168167836057nat, p()); }
    assert(fp(t) == pow_m(xv, 21909729111560712315977429384069400728635703002437329719270166684646113737114594336335672114nat, p()));
    t = fp_mul(&t, x);
    proof { lemma_pow_m_mul_base(xv, 21909729111560712315977429384069400728635703002437329719270166684646113737114594336335672114nat, p()); }
    assert(fp(t) == pow_m(xv, 21909729111560712315977429384069400728635703002437329719270166684646113737114594336335672115nat, p()));
    t = fp_square(&t);
    proof { lemma_pow_m_mul(xv, 21909729111560712315977429384069400728635703002437329719270166684646113737114594336335672115nat, 21909729111560712315977429384069400728635703002437329719270166684646113737114594336335672115nat, p()); }
    assert(fp(t) == pow_m(xv, 43819458223121424631954858768138801457271406004874659438540333369292227474229188672671344230nat, p()));
    t = fp_square(&t);
    proof { lemma_pow_m_mul(xv, 43819458223121424631954858768138801457271406004874659438540333369292227474229188672671344230nat, 43819458223121424631954858768138801457271406004874659438540333369292227474229188672671344230nat, p()); }
    assert(fp(t) == pow_m(xv, 87638916446242849263909717536277602914542812009749318877080666738584454948458377345342688460nat, p()));
    t = fp_square(&t);
    proof { lemma_pow_m_mul(xv, 87638916446242849263909717536277602914542812009749318877080666738584454948458377345342688460nat, 87638916446242849263909717536277602914542812009749318877080666738584454948458377345342688460nat, p()); }
    assert(fp(t) == pow_m(xv, 175277832892485698527819435072555205829085624019498637754161333477168909896916754690685376920nat, p()));
    t = fp_mul(&t, x);
    proof { lemma_pow_m_mul_base(xv, 175277832892485698527819435072555205829085624019498637754161333477168909896916754690685376920nat, p()); }
    assert(fp(t) == pow_m(xv, 175277832892485698527819435072555205829085624019498637754161333477168909896916754690685376921nat, p()));
    t = fp_square(&t);
    proof { lemma_pow_m_mul(xv, 175277832892485698527819435072555205829085624019498637754161333477168909896916754690685376921nat, 175277832892485698527819435072555205829085624019498637754161333477168909896916754690685376921nat, p()); }
    assert(fp(t) == pow_m(xv, 350555665784971397055638870145110411658171248038997275508322666954337819793833509381370753842nat, p()));
    t = fp_mul(&t, x);
    proof { lemma_pow_m_mul_base(xv, 350555665784971397055638870145110411658171248038997275508322666954337819793833509381370753842nat, p()); }
    assert(fp(t) == pow_m(xv, 350555665784971397055638870145110411658171248038997275508322666954337819793833509381370753843nat, p()));
    t = fp_square(&t);
    proof { lemma_pow_m_mul(xv, 350555665784971397055638870145110411658171248038997275508322666954337819793833509381370753843nat, 350555665784971397055638870145110411658171248038997275508322666954337819793833509381370753843nat, p()); }
    assert(fp(t) == pow_m(xv, 701111331569942794111277740290220823316342496077994551016645333908675639587667018762741507686nat, p()));
    t = fp_square(&t);
    proof { lemma_pow_m_mul(xv, 701111331569942794111277740290220823316342496077994551016645333908675639587667018762741507686nat, 701111331569942794111277740290220823316342496077994551016645333908675639587667018762741507686nat, p()); }
    assert(fp(t) == pow_m(xv, 1402222663139885588222555480580441646632684992155989102033290667817351279175334037525483015372nat, p()));
    t = fp_square(&t);
    proof { lemma_pow_m_mul(xv, 1402222663139885588222555480580441646632684992155989102033290667817351279175334037525483015372nat, 1402222663139885588222555480580441646632684992155989102033290667817351279175334037525483015372nat, p()); }
    assert(fp(t) == pow_m(xv, 2804445326279771176445110961160883293265369984311978204066581335634702558350668075050966030744nat, p()));
    t = fp_mul(&t, x);
    proof { lemma_pow_m_mul_base(xv, 2804445326279771176445110961160883293265369984311978204066581335634702558350668075050966030744nat, p()); }
    assert(fp(t) == pow_m(xv, 2804445326279771176445110961160883293265369984311978204066581335634702558350668075050966030745nat, p()));
    t = fp_square(&t);
    proof { lemma_pow_m_mul(xv, 2804445326279771176445110961160883293265369984311978204066581335634702558350668075050966030745nat, 2804445326279771176445110961160883293265369984311978204066581335634702558350668075050966030745nat, p()); }
    assert(fp(t) == pow_m(xv, 5608890652559542352890221922321766586530739968623956408133162671269405116701336150101932061490nat, p()));
    t = fp_mul(&t, x);
    proof { lemma_pow_m_mul_base(xv, 5608890652559542352890221922321766586530739968623956408133162671269405116701336150101932061490nat, p()); }
    assert(fp(t) == pow_m(xv, 5608890652559542352890221922321766586530739968623956408133162671269405116701336150101932061491nat, p()));
    t = fp_square(&t);
    proof { lemma_pow_m_mul(xv, 5608890652559542352890221922321766586530739968623956408133162671269405116701336150101932061491nat, 5608890652559542352890221922321766586530739968623956408133162671269405116701336150101932061491nat, p()); }
    assert(fp(t) == pow_m(xv, 11217781305119084705780443844643533173061479937247912816266325342538810233402672300203864122982nat, p()));
    t = fp_square(&t);
    proof { lemma_pow_m_mul(xv, 11217781305119084705780443844643533173061479937247912816266325342538810233402672300203864122982nat, 11217781305119084705780443844643533173061479937247912816266325342538810233402672300203864122982nat, p()); }
    assert(fp(t) == pow_m(xv, 22435562610238169411560887689287066346122959874495825632532650685077620466805344600407728245964nat, p()));
    t = fp_mul(&t, x);
    proof { lemma_pow_m_mul_base(xv, 22435562610238169411560887689287066346122959874495825632532650685077620466805344600407728245964nat, p()); }
    assert(fp(t) == pow_m(xv, 22435562610238169411560887689287066346122959874495825632532650685077620466805344600407728245965nat, p()));
    t = fp_square(&t);
    proof { lemma_pow_m_mul(xv, 22435562610238169411560887689287066346122959874495825632532650685077620466805344600407728245965nat, 22435562610238169411560887689287066346122959874495825632532650685077620466805344600407728245965nat, p()); }
    assert(fp(t) == pow_m(xv, 44871125220476338823121775378574132692245919748991651265065301370155240933610689200815456491930nat, p()));
    t = fp_mul(&t, x);
    proof { lemma_pow_m_mul_base(xv, 44871125220476338823121775378574132692245919748991651265065301370155240933610689200815456491930nat, p()); }
    assert(fp(t) == pow_m(xv, 44871125220476338823121775378574132692245919748991651265065301370155240933610689200815456491931nat, p()));
    t = fp_square(&t);
    proof { lemma_pow_m_mul(xv, 44871125220476338823121775378574132692245919748991651265065301370155240933610689200815456491931nat, 44871125220476338823121775378574132692245919748991651265065301370155240933610689200815456491931nat, p()); }
    assert(fp(t) == pow_m(xv, 89742250440952677646243550757148265384491839497983302530130602740310481867221378401630912983862nat, p()));
    t = fp_square(&t);
    proof { lemma_pow_m_mul(xv, 89742250440952677646243550757148265384491839497983302530130602740310481867221378401630912983862nat, 89742250440952677646243550757148265384491839497983302530130602740310481867221378401630912983862nat, p()); }
    assert(fp(t) == pow_m(xv, 179484500881905355292487101514296530768983678995966605060261205480620963734442756803261825967724nat, p()));
    t = fp_mul(&t, x);
    proof { lemma_pow_m_mul_base(xv, 179484500881905355292487101514296530768983678995966605060261205480620963734442756803261825967724nat, p()); }
    assert(fp(t) == pow_m(xv, 179484500881905355292487101514296530768983678995966605060261205480620963734442756803261825967725nat, p()));
    t = fp_square(&t);
    proof { lemma_pow_m_mul(xv, 179484500881905355292487101514296530768983678995966605060261205480620963734442756803261825967725nat, 179484500881905355292487101514296530768983678995966605060261205480620963734442756803261825967725nat, p()); }
    assert(fp(t) == pow_m(xv, 358969001763810710584974203028593061537967357991933210120522410961241927468885513606523651935450nat, p()));
    t = fp_square(&t);
    proof { lemma_pow_m_mul(xv, 358969001763810710584974203028593061537967357991933210120522410961241927468885513606523651935450nat, 358969001763810710584974203028593061537967357991933210120522410961241927468885513606523651935450nat, p()); }
    assert(fp(t) == pow_m(xv, 717938003527621421169948406057186123075934715983866420241044821922483854937771027213047303870900nat, p()));
    t = fp_square(&t);
    proof { lemma_pow_m_mul(xv, 717938003527621421169948406057186123075934715983866420241044821922483854937771027213047303870900nat, 717938003527621421169948406057186123075934715983866420241044821922483854937771027213047303870900nat, p()); }
    assert(fp(t) == pow_m(xv, 1435876007055242842339896812114372246151869431967732840482089643844967709875542054426094607741800nat, p()));
    t = fp_square(&t);
    proof { lemma_pow_m_mul(xv, 1435876007055242842339896812114372246151869431967732840482089643844967709875542054426094607741800nat, 1435876007055242842339896812114372246151869431967732840482089643844967709875542054426094607741800nat, p()); }
    assert(fp(t) == pow_m(xv, 2871752014110485684679793624228744492303738863935465680964179287689935419751084108852189215483600nat, p()));
    t = fp_square(&t);
    proof { lemma_pow_m_mul(xv, 2871752014110485684679793624228744492303738863935465680964179287689935419751084108852189215483600nat, 2871752014110485684679793624228744492303738863935465680964179287689935419751084108852189215483600nat, p()); }
    assert(fp(t) == pow_m(xv, 5743504028220971369359587248457488984607477727870931361928358575379870839502168217704378430967200nat, p()));
    t = fp_mul(&t, x);
    proof { lemma_pow_m_mul_base(xv, 5743504028220971369359587248457488984607477727870931361928358575379870839502168217704378430967200nat, p()); }
    assert(fp(t) == pow_m(xv, 5743504028220971369359587248457488984607477727870931361928358575379870839502168217704378430967201nat, p()));
    t = fp_square(&t);
    proof { lemma_pow_m_mul(xv, 5743504028220971369359587248457488984607477727870931361928358575379870839502168217704378430967201nat, 5743504028220971369359587248457488984607477727870931361928358575379870839502168217704378430967201nat, p()); }
    assert(fp(t) == pow_m(xv, 11487008056441942738719174496914977969214955455741862723856717150759741679004336435408756861934402nat, p()));
    t = fp_mul(&t, x);
    proof { lemma_pow_m_mul_base(xv, 11487008056441942738719174496914977969214955455741862723856717150759741679004336435408756861934402nat, p()); }
    assert(fp(t) == pow_m(xv, 11487008056441942738719174496914977969214955455741862723856717150759741679004336435408756861934403nat, p()));
    t = fp_square(&t);
    proof { lemma_pow_m_mul(xv, 11487008056441942738719174496914977969214955455741862723856717150759741679004336435408756861934403nat, 11487008056441942738719174496914977969214955455741862723856717150759741679004336435408756861934403nat, p()); }
    assert(fp(t) == pow_m(xv, 22974016112883885477438348993829955938429910911483725447713434301519483358008672870817513723868806nat, p()));
    t = fp_square(&t);
    proof { lemma_pow_m_mul(xv, 22974016112883885477438348993829955938429910911483725447713434301519483358008672870817513723868806nat, 22974016112883885477438348993829955938429910911483725447713434301519483358008672870817513723868806nat, p()); }
    assert(fp(t) == pow_m(xv, 45948032225767770954876697987659911876859821822967450895426868603038966716017345741635027447737612nat, p()));
    t = fp_mul(&t, x);
    proof { lemma_pow_m_mul_base(xv, 45948032225767770954876697987659911876859821822967450895426868603038966716017345741635027447737612nat, p()); }
    assert(fp(t) == pow_m(xv, 45948032225767770954876697987659911876859821822967450895426868603038966716017345741635027447737613nat, p()));
    t = fp_square(&t);
    proof { lemma_pow_m_mul(xv, 45948032225767770954876697987659911876859821822967450895426868603038966716017345741635027447737613nat, 45948032225767770954876697987659911876859821822967450895426868603038966716017345741635027447737613nat, p()); }
    assert(fp(t) == pow_m(xv, 91896064451535541909753395975319823753719643645934901790853737206077933432034691483270054895475226nat, p()));
    t = fp_square(&t);
    proof { lemma_pow_m_mul(xv, 91896064451535541909753395975319823753719643645934901790853737206077933432034691483270054895475226nat, 91896064451535541909753395975319823753719643645934901790853737206077933432034691483270054895475226nat, p()); }
    assert(fp(t) == pow_m(xv, 183792128903071083819506791950639647507439287291869803581707474412155866864069382966540109790950452nat, p()));
    t = fp_square(&t);
    proof { lemma_pow_m_mul(xv, 183792128903071083819506791950639647507439287291869803581707474412155866864069382966540109790950452nat, 183792128903071083819506791950639647507439287291869803581707474412155866864069382966540109790950452nat, p()); }
    assert(fp(t) == pow_m(xv, 367584257806142167639013583901279295014878574583739607163414948824311733728138765933080219581900904nat, p()));
    t
}

/// One stage of the square-and-multiply scan of the exponent.
fn scan_stage_7(x: &Felt, t: Felt) -> (r: Felt)
    requires
        fp(t) == pow_m(fp(*x), 367584257806142167639013583901279295014878574583739607163414948824311733728138765933080219581900904nat, p()),
    ensures
        fp(r) == pow_m(fp(*x), 206931540810375275208522186955914826829114810203931728431907410133376374678672658219975110511658688099552257166541nat, p()),
{
    let ghost xv: int = fp(*x);
    let mut t = t;
    t = fp_mul(&t, x);
    proof { lemma_pow_m_mul_base(xv, 367584257806142167639013583901279295014878574583739607163414948824311733728138765933080219581900904nat, p()); }
    assert(fp(t) == pow_m(xv, 367584257806142167639013583901279295014878574583739607163414948824311733728138765933080219581900905nat, p()));
    t = fp_square(&t);
    proof { lemma_pow_m_mul(xv, 367584257806142167639013583901279295014878574583739607163414948824311733728138765933080219581900905nat, 367584257806142167639013583901279295014878574583739607163414948824311733728138765933080219581900905nat, p()); }
    assert(fp(t) == pow_m(xv, 735168515612284335278027167802558590029757149167479214326829897648623467456277531866160439163801810nat, p()));
    t = fp_mul(&t, x);
    proof { lemma_pow_m_mul_base(xv, 735168515612284335278027167802558590029757149167479214326829897648623467456277531866160439163801810nat, p()); }
    assert(fp(t) == pow_m(xv, 735168515612284335278027167802558590029757149167479214326829897648623467456277531866160439163801811nat, p()));
    t = fp_square(&t);
    proof { lemma_pow_m_mul(xv, 735168515612284335278027167802558590029757149167479214326829897648623467456277531866160439163801811nat, 735168515612284335278027167802558590029757149167479214326829897648623467456277531866160439163801811nat, p()); }
    assert(fp(t) == pow_m(xv, 1470337031224568670556054335605117180059514298334958428653659795297246934912555063732320878327603622nat, p()));
    t = fp_mul(&t, x);
    proof { lemma_pow_m_mul_base(xv, 1470337031224568670556054335605117180059514298334958428653659795297246934912555063732320878327603622nat, p()); }
    assert(fp(t) == pow_m(xv, 1470337031224568670556054335605117180059514298334958428653659795297246934912555063732320878327603623nat, p()));
    t = fp_square(&t);
    proof { lemma_pow_m_mul(xv, 1470337031224568670556054335605117180059514298334958428653659795297246934912555063732320878327603623nat, 1470337031224568670556054335605117180059514298334958428653659795297246934912555063732320878327603623nat, p()); }
    assert(fp(t) == pow_m(xv, 2940674062449137341112108671210234360119028596669916857307319590594493869825110127464641756655207246nat, p()));
    t = fp_mul(&t, x);
    proof { lemma_pow_m_mul_base(xv, 2940674062449137341112108671210234360119028596669916857307319590594493869825110127464641756655207246nat, p()); }
    assert(fp(t) == pow_m(xv, 2940674062449137341112108671210234360119028596669916857307319590594493869825110127464641756655207247nat, p()));
    t = fp_square(&t);
    proof { lemma_pow_m_mul(xv, 2940674062449137341112108671210234360119028596669916857307319590594493869825110127464641756655207247nat, 2940674062449137341112108671210234360119028596669916857307319590594493869825110127464641756655207247nat, p()); }
    assert(fp(t) == pow_m(xv, 5881348124898274682224217342420468720238057193339833714614639181188987739650220254929283513310414494nat, p()));
    t = fp_square(&t);
    proof { lemma_pow_m_mul(xv, 5881348124898274682224217342420468720238057193339833714614639181188987739650220254929283513310414494nat, 5881348124898274682224217342420468720238057193339833714614639181188987739650220254929283513310414494nat, p()); }
    assert(fp(t) == pow_m(xv, 11762696249796549364448434684840937440476114386679667429229278362377975479300440509858567026620828988nat, p()));
    t = fp_square(&t);
    proof { lemma_pow_m_mul(xv, 11762696249796549364448434684840937440476114386679667429229278362377975479300440509858567026620828988nat, 11762696249796549364448434684840937440476114386679667429229278362377975479300440509858567026620828988nat, p()); }
    assert(fp(t) == pow_m(xv, 23525392499593098728896869369681874880952228773359334858458556724755950958600881019717134053241657976nat, p()));
    t = fp_mul(&t, x);
    proof { lemma_pow_m_mul_base(xv, 23525392499593098728896869369681874880952228773359334858458556724755950958600881019717134053241657976nat, p()); }
    assert(fp(t) == pow_m(xv, 23525392499593098728896869369681874880952228773359334858458556724755950958600881019717134053241657977nat, p()));
    t = fp_square(&t);
    proof { lemma_pow_m_mul(xv, 23525392499593098728896869369681874880952228773359334858458556724755950958600881019717134053241657977nat, 23525392499593098728896869369681874880952228773359334858458556724755950958600881019717134053241657977nat, p()); }
    assert(fp(t) == pow_m(xv, 47050784999186197457793738739363749761904457546718669716917113449511901917201762039434268106483315954nat, p()));
    t = fp_mul(&t, x);
    proof { lemma_pow_m_mul_base(xv, 47050784999186197457793738739363749761904457546718669716917113449511901917201762039434268106483315954nat, p()); }
    assert(fp(t) == pow_m(xv, 47050784999186197457793738739363749761904457546718669716917113449511901917201762039434268106483315955nat, p()));
    t = fp_square(&t);
    proof { lemma_pow_m_mul(xv, 47050784999186197457793738739363749761904457546718669716917113449511901917201762039434268106483315955nat, 47050784999186197457793738739363749761904457546718669716917113449511901917201762039434268106483315955nat, p()); }
    assert(fp(t) == pow_m(xv, 94101569998372394915587477478727499523808915093437339433834226899023803834403524078868536212966631910nat, p()));
    t = fp_square(&t);
    proof { lemma_pow_m_mul(xv, 94101569998372394915587477478727499523808915093437339433834226899023803834403524078868536212966631910nat, 94101569998372394915587477478727499523808915093437339433834226899023803834403524078868536212966631910nat, p()); }
    assert(fp(t) == pow_m(xv, 188203139996744789831174954957454999047617830186874678867668453798047607668807048157737072425933263820nat, p()));
    t = fp_square(&t);
    proof { lemma_pow_m_mul(xv, 188203139996744789831174954957454999047617830186874678867668453798047607668807048157737072425933263820nat, 188203139996744789831174954957454999047617830186874678867668453798047607668807048157737072425933263820nat, p()); }
    assert(fp(t) == pow_m(xv, 376406279993489579662349909914909998095235660373749357735336907596095215337614096315474144851866527640nat, p()));
    t = fp_mul(&t, x);
    proof { lemma_pow_m_mul_base(xv, 376406279993489579662349909914909998095235660373749357735336907596095215337614096315474144851866527640nat, p()); }
    assert(fp(t) == pow_m(xv, 376406279993489579662349909914909998095235660373749357735336907596095215337614096315474144851866527641nat, p()));
    t = fp_square(&t);
    proof { lemma_pow_m_mul(xv, 376406279993489579662349909914909998095235660373749357735336907596095215337614096315474144851866527641nat, 376406279993489579662349909914909998095235660373749357735336907596095215337614096315474144851866527641nat, p()); }
    assert(fp(t) == pow_m(xv, 752812559986979159324699819829819996190471320747498715470673815192190430675228192630948289703733055282nat, p()));
    t = fp_mul(&t, x);
    proof { lemma_pow_m_mul_base(xv, 752812559986979159324699819829819996190471320747498715470673815192190430675228192630948289703733055282nat, p()); }
    assert(fp(t) == pow_m(xv, 752812559986979159324699819829819996190471320747498715470673815192190430675228192630948289703733055283nat, p()));
    t = fp_square(&t);
    proof { lemma_pow_m_mul(xv, 752812559986979159324699819829819996190471320747498715470673815192190430675228192630948289703733055283nat, 752812559986979159324699819829819996190471320747498715470673815192190430675228192630948289703733055283nat, p()); }
    assert(fp(t) == pow_m(xv, 1505625119973958318649399639659639992380942641494997430941347630384380861350456385261896579407466110566nat, p()));
    t = fp_square(&t);
    proof { lemma_pow_m_mul(xv, 1505625119973958318649399639659639992380942641494997430941347630384380861350456385261896579407466110566nat, 1505625119973958318649399639659639992380942641494997430941347630384380861350456385261896579407466110566nat, p()); }
    assert(fp(t) == pow_m(xv, 3011250239947916637298799279319279984761885282989994861882695260768761722700912770523793158814932221132nat, p()));
    t = fp_square(&t);
    proof { lemma_pow_m_mul(xv, 3011250239947916637298799279319279984761885282989994861882695260768761722700912770523793158814932221132nat, 3011250239947916637298799279319279984761885282989994861882695260768761722700912770523793158814932221132nat, p()); }
    assert(fp(t) == pow_m(xv, 6022500479895833274597598558638559969523770565979989723765390521537523445401825541047586317629864442264nat, p()));
    t = fp_mul(&t, x);
    proof { lemma_pow_m_mul_base(xv, 6022500479895833274597598558638559969523770565979989723765390521537523445401825541047586317629864442264nat, p()); }
    assert(fp(t) == pow_m(xv, 6022500479895833274597598558638559969523770565979989723765390521537523445401825541047586317629864442265nat, p()));
    t = fp_square(&t);
    proof { lemma_pow_m_mul(xv, 6022500479895833274597598558638559969523770565979989723765390521537523445401825541047586317629864442265nat, 6022500479895833274597598558638559969523770565979989723765390521537523445401825541047586317629864442265nat, p()); }
    assert(fp(t) == pow_m(xv, 12045000959791666549195197117277119939047541131959979447530781043075046890803651082095172635259728884530nat, p()));
    t = fp_mul(&t, x);
    proof { lemma_pow_m_mul_base(xv, 12045000959791666549195197117277119939047541131959979447530781043075046890803651082095172635259728884530nat, p()); }
    assert(fp(t) == pow_m(xv, 12045000959791666549195197117277119939047541131959979447530781043075046890803651082095172635259728884531nat, p()));
    t = fp_square(&t);
    proof { lemma_pow_m_mul(xv, 12045000959791666549195197117277119939047541131959979447530781043075046890803651082095172635259728884531nat, 12045000959791666549195197117277119939047541131959979447530781043075046890803651082095172635259728884531nat, p()); }
    assert(fp(t) == pow_m(xv, 24090001919583333098390394234554239878095082263919958895061562086150093781607302164190345270519457769062nat, p()));
    t = fp_square(&t);
    proof { lemma_pow_m_mul(xv, 24090001919583333098390394234554239878095082263919958895061562086150093781607302164190345270519457769062nat, 24090001919583333098390394234554239878095082263919958895061562086150093781607302164190345270519457769062nat, p()); }
    assert(fp(t) == pow_m(xv, 48180003839166666196780788469108479756190164527839917790123124172300187563214604328380690541038915538124nat, p()));
    t = fp_square(&t);
    proof { lemma_pow_m_mul(xv, 48180003839166666196780788469108479756190164527839917790123124172300187563214604328380690541038915538124nat, 48180003839166666196780788469108479756190164527839917790123124172300187563214604328380690541038915538124nat, p()); }
    assert(fp(t) == pow_m(xv, 96360007678333332393561576938216959512380329055679835580246248344600375126429208656761381082077831076248nat, p()));
    t = fp_mul(&t, x);
    proof { lemma_pow_m_mul_base(xv, 96360007678333332393561576938216959512380329055679835580246248344600375126429208656761381082077831076248nat, p()); }
    assert(fp(t) == pow_m(xv, 96360007678333332393561576938216959512380329055679835580246248344600375126429208656761381082077831076249nat, p()));
    t = fp_square(&t);
    proof { lemma_pow_m_mul(xv, 96360007678333332393561576938216959512380329055679835580246248344600375126429208656761381082077831076249nat, 96360007678333332393561576938216959512380329055679835580246248344600375126429208656761381082077831076249nat, p()); }
    assert(fp(t) == pow_m(xv, 192720015356666664787123153876433919024760658111359671160492496689200750252858417313522762164155662152498nat, p()));
    t = fp_mul(&t, x);
    proof { lemma_pow_m_mul_base(xv, 192720015356666664787123153876433919024760658111359671160492496689200750252858417313522762164155662152498nat, p()); }
    assert(fp(t) == pow_m(xv, 192720015356666664787123153876433919024760658111359671160492496689200750252858417313522762164155662152499nat, p()));
    t = fp_square(&t);
    proof { lemma_pow_m_mul(xv, 192720015356666664787123153876433919024760658111359671160492496689200750252858417313522762164155662152499nat, 192720015356666664787123153876433919024760658111359671160492496689200750252858417313522762164155662152499nat, p()); }
    assert(fp(t) == pow_m(xv, 385440030713333329574246307752867838049521316222719342320984993378401500505716834627045524328311324304998nat, p()));
    t = fp_square(&t);
    proof { lemma_pow_m_mul(xv, 385440030713333329574246307752867838049521316222719342320984993378401500505716834627045524328311324304998nat, 385440030713333329574246307752867838049521316222719342320984993378401500505716834627045524328311324304998nat, p()); }
    assert(fp(t) == pow_m(xv, 770880061426666659148492615505735676099042632445438684641969986756803001011433669254091048656622648609996nat, p()));
    t = fp_square(&t);
    proof { lemma_pow_m_mul(xv, 770880061426666659148492615505735676099042632445438684641969986756803001011433669254091048656622648609996nat, 770880061426666659148492615505735676099042632445438684641969986756803001011433669254091048656622648609996nat, p()); }
    assert(fp(t) == pow_m(xv, 1541760122853333318296985231011471352198085264890877369283939973513606002022867338508182097313245297219992nat, p()));
    t = fp_mul(&t, x);
    proof { lemma_pow_m_mul_base(xv, 1541760122853333318296985231011471352198085264890877369283939973513606002022867338508182097313245297219992nat, p()); }
    assert(fp(t) == pow_m(xv, 1541760122853333318296985231011471352198085264890877369283939973513606002022867338508182097313245297219993nat, p()));
    t = fp_square(&t);
    proof { lemma_pow_m_mul(xv, 1541760122853333318296985231011471352198085264890877369283939973513606002022867338508182097313245297219993nat, 1541760122853333318296985231011471352198085264890877369283939973513606002022867338508182097313245297219993nat, p()); }
    assert(fp(t) == pow_m(xv, 3083520245706666636593970462022942704396170529781754738567879947027212004045734677016364194626490594439986nat, p()));
    t = fp_mul(&t, x);
    proof { lemma_pow_m_mul_base(xv, 3083520245706666636593970462022942704396170529781754738567879947027212004045734677016364194626490594439986nat, p()); }
    assert(fp(t) == pow_m(xv, 3083520245706666636593970462022942704396170529781754738567879947027212004045734677016364194626490594439987nat, p()));
    t = fp_square(&t);
    proof { lemma_pow_m_mul(xv, 3083520245706666636593970462022942704396170529781754738567879947027212004045734677016364194626490594439987nat, 3083520245706666636593970462022942704396170529781754738567879947027212004045734677016364194626490594439987nat, p()); }
    assert(fp(t) == pow_m(xv, 6167040491413333273187940924045885408792341059563509477135759894054424008091469354032728389252981188879974nat, p()));
    t = fp_square(&t);
    proof { lemma_pow_m_mul(xv, 6167040491413333273187940924045885408792341059563509477135759894054424008091469354032728389252981188879974nat, 6167040491413333273187940924045885408792341059563509477135759894054424008091469354032728389252981188879974nat, p()); }
    assert(fp(t) == pow_m(xv, 12334080982826666546375881848091770817584682119127018954271519788108848016182938708065456778505962377759948nat, p()));
    t = fp_square(&t);
    proof { lemma_pow_m_mul(xv, 12334080982826666546375881848091770817584682119127018954271519788108848016182938708065456778505962377759948nat, 12334080982826666546375881848091770817584682119127018954271519788108848016182938708065456778505962377759948nat, p()); }
    assert(fp(t) == pow_m(xv, 24668161965653333092751763696183541635169364238254037908543039576217696032365877416130913557011924755519896nat, p()));
    t = fp_mul(&t, x);
    proof { lemma_pow_m_mul_base(xv, 24668161965653333092751763696183541635169364238254037908543039576217696032365877416130913557011924755519896nat, p()); }
    assert(fp(t) == pow_m(xv, 24668161965653333092751763696183541635169364238254037908543039576217696032365877416130913557011924755519897nat, p()));
    t = fp_square(&t);
    proof { lemma_pow_m_mul(xv, 24668161965653333092751763696183541635169364238254037908543039576217696032365877416130913557011924755519897nat, 24668161965653333092751763696183541635169364238254037908543039576217696032365877416130913557011924755519897nat, p()); }
    assert(fp(t) == pow_m(xv, 49336323931306666185503527392367083270338728476508075817086079152435392064731754832261827114023849511039794nat, p()));
    t = fp_mul(&t, x);
    proof { lemma_pow_m_mul_base(xv, 49336323931306666185503527392367083270338728476508075817086079152435392064731754832261827114023849511039794nat, p()); }
    assert(fp(t) == pow_m(xv, 49336323931306666185503527392367083270338728476508075817086079152435392064731754832261827114023849511039795nat, p()));
    t = fp_square(&t);
    proof { lemma_pow_m_mul(xv, 49336323931306666185503527392367083270338728476508075817086079152435392064731754832261827114023849511039795nat, 49336323931306666185503527392367083270338728476508075817086079152435392064731754832261827114023849511039795nat, p()); }
    assert(fp(t) == pow_m(xv, 98672647862613332371007054784734166540677456953016151634172158304870784129463509664523654228047699022079590nat, p()));
    t = fp_square(&t);
    proof { lemma_pow_m_mul(xv, 98672647862613332371007054784734166540677456953016151634172158304870784129463509664523654228047699022079590nat, 98672647862613332371007054784734166540677456953016151634172158304870784129463509664523654228047699022079590nat, p()); }
    assert(fp(t) == pow_m(xv, 197345295725226664742014109569468333081354913906032303268344316609741568258927019329047308456095398044159180nat, p()));
    t = fp_square(&t);
    proof { lemma_pow_m_mul(xv, 197345295725226664742014109569468333081354913906032303268344316609741568258927019329047308456095398044159180nat, 197345295725226664742014109569468333081354913906032303268344316609741568258927019329047308456095398044159180nat, p()); }
    assert(fp(t) == pow_m(xv, 394690591450453329484028219138936666162709827812064606536688633219483136517854038658094616912190796088318360nat, p()));
    t = fp_mul(&t, x);
    proof { lemma_pow_m_mul_base(xv, 394690591450453329484028219138936666162709827812064606536688633219483136517854038658094616912190796088318360nat, p()); }
    assert(fp(t) == pow_m(xv, 394690591450453329484028219138936666162709827812064606536688633219483136517854038658094616912190796088318361nat, p()));
    t = fp_square(&t);
    proof { lemma_pow_m_mul(xv, 394690591450453329484028219138936666162709827812064606536688633219483136517854038658094616912190796088318361nat, 394690591450453329484028219138936666162709827812064606536688633219483136517854038658094616912190796088318361nat, p()); }
    assert(fp(t) == pow_m(xv, 789381182900906658968056438277873332325419655624129213073377266438966273035708077316189233824381592176636722nat, p()));
    t = fp_mul(&t, x);
    proof { lemma_pow_m_mul_base(xv, 789381182900906658968056438277873332325419655624129213073377266438966273035708077316189233824381592176636722nat, p()); }
    assert(fp(t) == pow_m(xv, 789381182900906658968056438277873332325419655624129213073377266438966273035708077316189233824381592176636723nat, p()));
    t = fp_square(&t);
    proof { lemma_pow_m_mul(xv, 789381182900906658968056438277873332325419655624129213073377266438966273035708077316189233824381592176636723nat, 789381182900906658968056438277873332325419655624129213073377266438966273035708077316189233824381592176636723nat, p()); }
    assert(fp(t) == pow_m(xv, 1578762365801813317936112876555746664650839311248258426146754532877932546071416154632378467648763184353273446nat, p()));
    t = fp_square(&t);
    proof { lemma_pow_m_mul(xv, 1578762365801813317936112876555746664650839311248258426146754532877932546071416154632378467648763184353273446nat, 1578762365801813317936112876555746664650839311248258426146754532877932546071416154632378467648763184353273446nat, p()); }
    assert(fp(t) == pow_m(xv, 3157524731603626635872225753111493329301678622496516852293509065755865092142832309264756935297526368706546892nat, p()));
    t = fp_square(&t);
    proof { lemma_pow_m_mul(xv, 3157524731603626635872225753111493329301678622496516852293509065755865092142832309264756935297526368706546892nat, 3157524731603626635872225753111493329301678622496516852293509065755865092142832309264756935297526368706546892nat, p()); }
    assert(fp(t) == pow_m(xv, 6315049463207253271744451506222986658603357244993033704587018131511730184285664618529513870595052737413093784nat, p()));
    t = fp_mul(&t, x);
    proof { lemma_pow_m_mul_base(xv, 6315049463207253271744451506222986658603357244993033704587018131511730184285664618529513870595052737413093784nat, p()); }
    assert(fp(t) == pow_m(xv, 6315049463207253271744451506222986658603357244993033704587018131511730184285664618529513870595052737413093785nat, p()));
    t = fp_square(&t);
    proof { lemma_pow_m_mul(xv, 6315049463207253271744451506222986658603357244993033704587018131511730184285664618529513870595052737413093785nat, 6315049463207253271744451506222986658603357244993033704587018131511730184285664618529513870595052737413093785nat, p()); }
    assert(fp(t) == pow_m(xv, 12630098926414506543488903012445973317206714489986067409174036263023460368571329237059027741190105474826187570nat, p()));
    t = fp_mul(&t, x);
    proof { lemma_pow_m_mul_base(xv, 12630098926414506543488903012445973317206714489986067409174036263023460368571329237059027741190105474826187570nat, p()); }
    assert(fp(t) == pow_m(xv, 12630098926414506543488903012445973317206714489986067409174036263023460368571329237059027741190105474826187571nat, p()));
    t = fp_square(&t);
    proof { lemma_pow_m_mul(xv, 12630098926414506543488903012445973317206714489986067409174036263023460368571329237059027741190105474826187571nat, 12630098926414506543488903012445973317206714489986067409174036263023460368571329237059027741190105474826187571nat, p()); }
    assert(fp(t) == pow_m(xv, 25260197852829013086977806024891946634413428979972134818348072526046920737142658474118055482380210949652375142nat, p()));
    t = fp_square(&t);
    proof { lemma_pow_m_mul(xv, 25260197852829013086977806024891946634413428979972134818348072526046920737142658474118055482380210949652375142nat, 25260197852829013086977806024891946634413428979972134818348072526046920737142658474118055482380210949652375142nat, p()); }
    assert(fp(t) == pow_m(xv, 50520395705658026173955612049783893268826857959944269636696145052093841474285316948236110964760421899304750284nat, p()));
    t = fp_square(&t);
    proof { lemma_pow_m_mul(xv, 50520395705658026173955612049783893268826857959944269636696145052093841474285316948236110964760421899304750284nat, 50520395705658026173955612049783893268826857959944269636696145052093841474285316948236110964760421899304750284nat, p()); }
    assert(fp(t) == pow_m(xv, 101040791411316052347911224099567786537653715919888539273392290104187682948570633896472221929520843798609500568nat, p()));
    t = fp_mul(&t, x);
    proof { lemma_pow_m_mul_base(xv, 101040791411316052347911224099567786537653715919888539273392290104187682948570633896472221929520843798609500568nat, p()); }
    assert(fp(t) == pow_m(xv, 101040791411316052347911224099567786537653715919888539273392290104187682948570633896472221929520843798609500569nat, p()));
    t = fp_square(&t);
    proof { lemma_pow_m_mul(xv, 101040791411316052347911224099567786537653715919888539273392290104187682948570633896472221929520843798609500569nat, 101040791411316052347911224099567786537653715919888539273392290104187682948570633896472221929520843798609500569nat, p()); }
    assert(fp(t) == pow_m(xv, 202081582822632104695822448199135573075307431839777078546784580208375365897141267792944443859041687597219001138nat, p()));
    t = fp_mul(&t, x);
    proof { lemma_pow_m_mul_base(xv, 202081582822632104695822448199135573075307431839777078546784580208375365897141267792944443859041687597219001138nat, p()); }
    assert(fp(t) == pow_m(xv, 202081582822632104695822448199135573075307431839777078546784580208375365897141267792944443859041687597219001139nat, p()));
    t = fp_square(&t);
    proof { lemma_pow_m_mul(xv, 202081582822632104695822448199135573075307431839777078546784580208375365897141267792944443859041687597219001139nat, 202081582822632104695822448199135573075307431839777078546784580208375365897141267792944443859041687597219001139nat, p()); }
    assert(fp(t) == pow_m(xv, 404163165645264209391644896398271146150614863679554157093569160416750731794282535585888887718083375194438002278nat, p()));
    t = fp_square(&t);
    proof { lemma_pow_m_mul(xv, 404163165645264209391644896398271146150614863679554157093569160416750731794282535585888887718083375194438002278nat, 404163165645264209391644896398271146150614863679554157093569160416750731794282535585888887718083375194438002278nat, p()); }
    assert(fp(t) == pow_m(xv, 808326331290528418783289792796542292301229727359108314187138320833501463588565071171777775436166750388876004556nat, p()));
    t = fp_square(&t);
    proof { lemma_pow_m_mul(xv, 808326331290528418783289792796542292301229727359108314187138320833501463588565071171777775436166750388876004556nat, 808326331290528418783289792796542292301229727359108314187138320833501463588565071171777775436166750388876004556nat, p()); }
    assert(fp(t) == pow_m(xv, 1616652662581056837566579585593084584602459454718216628374276641667002927177130142343555550872333500777752009112nat, p()));
    t = fp_mul(&t, x);
    proof { lemma_pow_m_mul_base(xv, 1616652662581056837566579585593084584602459454718216628374276641667002927177130142343555550872333500777752009112nat, p()); }
    assert(fp(t) == pow_m(xv, 1616652662581056837566579585593084584602459454718216628374276641667002927177130142343555550872333500777752009113nat, p()));
    t = fp_square(&t);
    proof { lemma_pow_m_mul(xv, 1616652662581056837566579585593084584602459454718216628374276641667002927177130142343555550872333500777752009113nat, 1616652662581056837566579585593084584602459454718216628374276641667002927177130142343555550872333500777752009113nat, p()); }
    assert(fp(t) == pow_m(xv, 3233305325162113675133159171186169169204918909436433256748553283334005854354260284687111101744667001555504018226nat, p()));
    t = fp_mul(&t, x);
    proof { lemma_pow_m_mul_base(xv, 3233305325162113675133159171186169169204918909436433256748553283334005854354260284687111101744667001555504018226nat, p()); }
    assert(fp(t) == pow_m(xv, 3233305325162113675133159171186169169204918909436433256748553283334005854354260284687111101744667001555504018227nat, p()));
    t = fp_square(&t);
    proof { lemma_pow_m_mul(xv, 3233305325162113675133159171186169169204918909436433256748553283334005854354260284687111101744667001555504018227nat, 3233305325162113675133159171186169169204918909436433256748553283334005854354260284687111101744667001555504018227nat, p()); }
    assert(fp(t) == pow_m(xv, 6466610650324227350266318342372338338409837818872866513497106566668011708708520569374222203489334003111008036454nat, p()));
    t = fp_square(&t);
    proof { lemma_pow_m_mul(xv, 6466610650324227350266318342372338338409837818872866513497106566668011708708520569374222203489334003111008036454nat, 6466610650324227350266318342372338338409837818872866513497106566668011708708520569374222203489334003111008036454nat, p()); }
    assert(fp(t) == pow_m(xv, 12933221300648454700532636684744676676819675637745733026994213133336023417417041138748444406978668006222016072908nat, p()));
    t = fp_square(&t);
    proof { lemma_pow_m_mul(xv, 12933221300648454700532636684744676676819675637745733026994213133336023417417041138748444406978668006222016072908nat, 12933221300648454700532636684744676676819675637745733026994213133336023417417041138748444406978668006222016072908nat, p()); }
    assert(fp(t) == pow_m(xv, 25866442601296909401065273369489353353639351275491466053988426266672046834834082277496888813957336012444032145816nat, p()));
    t = fp_mul(&t, x);
    proof { lemma_pow_m_mul_base(xv, 25866442601296909401065273369489353353639351275491466053988426266672046834834082277496888813957336012444032145816nat, p()); }
    assert(fp(t) == pow_m(xv, 25866442601296909401065273369489353353639351275491466053988426266672046834834082277496888813957336012444032145817nat, p()));
    t = fp_square(&t);
    proof { lemma_pow_m_mul(xv, 25866442601296909401065273369489353353639351275491466053988426266672046834834082277496888813957336012444032145817nat, 25866442601296909401065273369489353353639351275491466053988426266672046834834082277496888813957336012444032145817nat, p()); }
    assert(fp(t) == pow_m(xv, 51732885202593818802130546738978706707278702550982932107976852533344093669668164554993777627914672024888064291634nat, p()));
    t = fp_mul(&t, x);
    proof { lemma_pow_m_mul_base(xv, 51732885202593818802130546738978706707278702550982932107976852533344093669668164554993777627914672024888064291634nat, p()); }
    assert(fp(t) == pow_m(xv, 51732885202593818802130546738978706707278702550982932107976852533344093669668164554993777627914672024888064291635nat, p()));
    t = fp_square(&t);
    proof { lemma_pow_m_mul(xv, 51732885202593818802130546738978706707278702550982932107976852533344093669668164554993777627914672024888064291635nat, 51732885202593818802130546738978706707278702550982932107976852533344093669668164554993777627914672024888064291635nat, p()); }
    assert(fp(t) == pow_m(xv, 103465770405187637604261093477957413414557405101965864215953705066688187339336329109987555255829344049776128583270nat, p()));
    t = fp_square(&t);
    proof { lemma_pow_m_mul(xv, 103465770405187637604261093477957413414557405101965864215953705066688187339336329109987555255829344049776128583270nat, 103465770405187637604261093477957413414557405101965864215953705066688187339336329109987555255829344049776128583270nat, p()); }
    assert(fp(t) == pow_m(xv, 206931540810375275208522186955914826829114810203931728431907410133376374678672658219975110511658688099552257166540nat, p()));
    t = fp_mul(&t, x);
    proof { lemma_pow_m_mul_base(xv, 206931540810375275208522186955914826829114810203931728431907410133376374678672658219975110511658688099552257166540nat, p()); }
    assert(fp(t) == pow_m(xv, 206931540810375275208522186955914826829114810203931728431907410133376374678672658219975110511658688099552257166541nat, p()));
    t
}

/// Raises a field element to the `INV_ALPHA`-th power by a
/// straight-line square-and-multiply scan of the exponent bits.
pub fn exp_inv_alpha(x: &Felt) -> (r: Felt)
    ensures
        fp(r) == pow_m(fp(*x), inv_alpha(), p()),
{
    let ghost xv: int = fp(*x);
    let t = *x;
    let mut t = t;
    t = scan_stage_1(x, t);
    t = scan_stage_2(x, t);
    t = scan_stage_3(x, t);
    t = scan_stage_4(x, t);
    t = scan_stage_5(x, t);
    t = scan_stage_6(x, t);
    t = scan_stage_7(x, t);
    t
}
} // verus!
