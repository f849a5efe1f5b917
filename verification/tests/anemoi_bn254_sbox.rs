use anemoi::bn_254::sbox::{exp_inv_alpha, INV_ALPHA};
use ark_bn254::Fq as Felt;
use ark_ff::{Field, One};

#[test]
fn test_alpha() {
    let mut a = -Felt::one();
    for _ in 0..100 {
        assert_eq!(exp_inv_alpha(&a), a.pow(INV_ALPHA));
        a += a;
    }
}

#[test]
fn test_inverse_alpha_inverts_fifth_power() {
    let mut a = Felt::from(7u64);
    for _ in 0..20 {
        let r = exp_inv_alpha(&a);
        assert_eq!(r.pow([5u64]), a);
        a = a * a + Felt::one();
    }
}
