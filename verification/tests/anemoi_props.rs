use anemoi::bls12_377::anemoi_2_1 as bls_2_1;
use anemoi::bn_254::anemoi_12_11::{round_constants, AnemoiHash};
use anemoi::bn_254::anemoi_12_11 as bn_12_11;
use ark_bn254::Fq as Felt;
use ark_ff::{Field, FromBytes, One, Zero};

fn sample_state(seed: u64) -> Vec<Felt> {
    let mut v = Vec::new();
    let mut x: u64 = seed.wrapping_mul(0x9e3779b97f4a7c15).wrapping_add(1);
    for _ in 0..12 {
        x = x.wrapping_mul(6364136223846793005).wrapping_add(1442695040888963407);
        v.push(Felt::from(x));
    }
    v
}

#[test]
fn test_permutation_injective_on_sample() {
    let mut outputs: Vec<Vec<Felt>> = Vec::new();
    for seed in 0..20u64 {
        let mut state = sample_state(seed);
        bn_12_11::apply_permutation(&mut state);
        outputs.push(state);
    }
    for i in 0..outputs.len() {
        for j in (i + 1)..outputs.len() {
            assert_ne!(outputs[i], outputs[j]);
        }
    }
}

#[test]
fn test_round_constant_count() {
    let (c, d) = round_constants();
    assert_eq!(c.len(), bn_12_11::NUM_HASH_ROUNDS * bn_12_11::NUM_COLUMNS);
    assert_eq!(d.len(), bn_12_11::NUM_HASH_ROUNDS * bn_12_11::NUM_COLUMNS);
    let (cb, db) = bls_2_1::round_constants();
    assert_eq!(cb.len(), bls_2_1::NUM_HASH_ROUNDS);
    assert_eq!(db.len(), bls_2_1::NUM_HASH_ROUNDS);
}

#[test]
fn test_digest_width() {
    let elems = sample_state(7);
    assert_eq!(
        AnemoiHash::hash_field(&elems).to_elements().len(),
        bn_12_11::DIGEST_SIZE
    );
    let bytes: Vec<u8> = (0u8..57).collect();
    assert_eq!(
        AnemoiHash::hash(&bytes).to_elements().len(),
        bn_12_11::DIGEST_SIZE
    );
    assert_eq!(AnemoiHash::compress(&elems).len(), bn_12_11::NUM_COLUMNS);
}

#[test]
fn test_jive_generalization() {
    for seed in 0..5u64 {
        let elems = sample_state(seed);
        assert_eq!(
            AnemoiHash::compress(&elems),
            AnemoiHash::compress_k(&elems, 2)
        );
    }
    let elems = sample_state(11);
    assert_eq!(AnemoiHash::compress_k(&elems, 1).len(), 12);
    assert_eq!(AnemoiHash::compress_k(&elems, 12).len(), 1);
    assert_eq!(AnemoiHash::compress_k(&elems, 3).len(), 4);
}

#[test]
fn test_byte_hash_matches_field_elements() {
    // A short input: one chunk, sentinel appended after the data bytes.
    let bytes: Vec<u8> = vec![5, 6, 7];
    let le_with_sentinel: u64 = 5 + (6 << 8) + (7 << 16) + (1 << 24);
    let elems = vec![Felt::from(le_with_sentinel)];
    assert_eq!(
        AnemoiHash::hash(&bytes).to_elements(),
        AnemoiHash::hash_field(&elems).to_elements()
    );
    // A full 31-byte chunk decodes with a zero pad byte and no sentinel.
    let bytes31: Vec<u8> = (1u8..32).collect();
    let mut buf = [0u8; 32];
    buf[..31].copy_from_slice(&bytes31);
    let e = Felt::read(&buf[..]).unwrap();
    assert_eq!(
        AnemoiHash::hash(&bytes31).to_elements(),
        AnemoiHash::hash_field(&vec![e]).to_elements()
    );
    // A 33-byte input: one full chunk, then a short one with a sentinel.
    let bytes33: Vec<u8> = (1u8..34).collect();
    let mut buf2 = [0u8; 32];
    buf2[0] = 32;
    buf2[1] = 33;
    buf2[2] = 1;
    let e2 = Felt::read(&buf2[..]).unwrap();
    assert_eq!(
        AnemoiHash::hash(&bytes33).to_elements(),
        AnemoiHash::hash_field(&vec![e, e2]).to_elements()
    );
}

#[test]
fn test_empty_byte_input_absorbs_sentinel_element() {
    let empty: Vec<u8> = Vec::new();
    assert_eq!(
        AnemoiHash::hash(&empty).to_elements(),
        AnemoiHash::hash_field(&vec![Felt::one()]).to_elements()
    );
}

#[test]
fn test_trailing_zero_changes_digest() {
    for n in [1usize, 3, 12, 30, 33, 45] {
        let bytes: Vec<u8> = (0..n).map(|i| (i as u8).wrapping_mul(37).wrapping_add(11)).collect();
        let mut extended = bytes.clone();
        extended.push(0);
        assert_ne!(
            AnemoiHash::hash(&bytes).to_elements(),
            AnemoiHash::hash(&extended).to_elements()
        );
    }
}

#[test]
fn test_field_hash_rate_alignment() {
    // An aligned input takes the sigma path: no trailing permutation.
    // Its digest must still differ from the unaligned prefix's digest.
    let aligned = {
        let mut v = Vec::new();
        for i in 0..11u64 {
            v.push(Felt::from(i + 1));
        }
        v
    };
    let mut unaligned = aligned.clone();
    unaligned.pop();
    let d_aligned = AnemoiHash::hash_field(&aligned).to_elements();
    let d_unaligned = AnemoiHash::hash_field(&unaligned).to_elements();
    assert_ne!(d_aligned, d_unaligned);
    // An empty field input is aligned: the state is never permuted and
    // the digest is the zero element.
    let empty: Vec<Felt> = Vec::new();
    assert_eq!(
        AnemoiHash::hash_field(&empty).to_elements(),
        vec![Felt::zero()]
    );
}

#[test]
fn test_merge_mixes_both_digests() {
    let d0 = AnemoiHash::hash_field(&vec![Felt::from(1u64)]);
    let d1 = AnemoiHash::hash_field(&vec![Felt::from(2u64)]);
    let m01 = AnemoiHash::merge(&[d0.clone(), d1.clone()]);
    let m10 = AnemoiHash::merge(&[d1.clone(), d0.clone()]);
    let m00 = AnemoiHash::merge(&[d0.clone(), d0.clone()]);
    assert_eq!(m01.to_elements().len(), 1);
    assert_ne!(m01.to_elements(), m10.to_elements());
    assert_ne!(m01.to_elements(), m00.to_elements());
}

#[test]
fn test_default_hasher_is_fresh() {
    let h = AnemoiHash::default();
    let h2 = AnemoiHash::default();
    assert_eq!(h, h2);
}

#[test]
fn test_first_round_constant_values() {
    // In round zero both pi powers are one, so the first constants have
    // closed forms: C = g + 2^alpha and D = g + 2^alpha + g^-1.
    let (c, d) = round_constants();
    let g = Felt::from(3u64);
    let two_pow_alpha = Felt::from(32u64);
    assert_eq!(c[0], g + two_pow_alpha);
    assert_eq!(d[0], g + two_pow_alpha + g.inverse().unwrap());
    let (cb, db) = bls_2_1::round_constants();
    let gb = ark_bls12_377::Fq::from(15u64);
    let two_pow_alpha_b = ark_bls12_377::Fq::from(32u64);
    assert_eq!(cb[0], gb + two_pow_alpha_b);
    assert_eq!(db[0], gb + two_pow_alpha_b + gb.inverse().unwrap());
}
