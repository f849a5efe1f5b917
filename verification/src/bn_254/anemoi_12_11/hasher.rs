//! The sponge and Jive modes of the twelve-element Anemoi instance.
//!
//! The sponge absorbs input into the first eleven state elements, one
//! permutation per full rate, separates domains with a capacity tweak and
//! a trailing one, and squeezes the first element as the digest. The Jive
//! mode compresses a full state to a fraction of its width by summing the
//! state before and after one permutation.

use vstd::prelude::*;
use vstd::arithmetic::power::{pow, lemma_pow_increases};
use vstd::arithmetic::div_mod::{
    lemma_add_mod_noop, lemma_add_mod_noop_right, lemma_mod_twice, lemma_small_mod,
};
use crate::bn_254::field::{
    Felt, fq, q, vals, le_int, lemma_le_int_snoc, lemma_le_int_bound, fq_add, fq_zero,
    fq_one, fq_from_le_bytes,
};
use crate::bn_254::anemoi_12_11::{permutation_spec, apply_permutation, NUM_COLUMNS, DIGEST_SIZE};

verus! {

/// The all-zero sponge state.
pub open spec fn zero_state() -> Seq<int> {
    Seq::new(12, |i: int| 0)
}

/// The sponge state after absorbing a sequence of residues: each is added
/// into the next rate position, and the state is permuted whenever the
/// eleven rate positions have been filled.
pub open spec fn absorb_spec(elems: Seq<int>) -> Seq<int>
    decreases elems.len(),
{
    if elems.len() == 0 {
        zero_state()
    } else {
        let prev = absorb_spec(elems.drop_last());
        let idx = ((elems.len() - 1) as int) % 11;
        let st = prev.update(idx, (prev[idx] + elems.last()) % q());
        if elems.len() % 11 == 0 {
            permutation_spec(st)
        } else {
            st
        }
    }
}

/// The domain-separation value: one when the element count fills the rate
/// exactly, zero otherwise.
pub open spec fn sigma(n: nat) -> int {
    if n % 11 == 0 {
        1
    } else {
        0
    }
}

/// The final sponge state of a hash over `elems`: absorb everything, add
/// `sigma` to the last capacity element, and when the input did not fill
/// the rate, add a trailing one at the next rate position and permute
/// once more.
pub open spec fn hash_state(elems: Seq<int>) -> Seq<int> {
    let st = absorb_spec(elems);
    let st1 = st.update(11, (st[11] + sigma(elems.len())) % q());
    if elems.len() % 11 == 0 {
        st1
    } else {
        let idx = (elems.len() as int) % 11;
        permutation_spec(st1.update(idx, (st1[idx] + 1) % q()))
    }
}

/// The digest of a field-element input: the first element of the final
/// sponge state.
pub open spec fn hash_field_spec(elems: Seq<int>) -> Seq<int> {
    hash_state(elems).subrange(0, 1)
}

/// The number of elements a byte string is chunked into: one per 31
/// bytes, the last possibly short, and one for an empty input.
pub open spec fn num_chunks(len: nat) -> nat {
    if len == 0 {
        1
    } else {
        ((len + 30) / 31) as nat
    }
}

/// The residue absorbed for chunk `k` of a byte string: the little-endian
/// value of its bytes, with a sentinel byte of one appended when the last
/// chunk is shorter than 31 bytes.
pub open spec fn chunk_elem(bytes: Seq<u8>, k: int) -> int {
    let n = num_chunks(bytes.len()) as int;
    let start = 31 * k;
    let end = if 31 * (k + 1) <= bytes.len() {
        31 * (k + 1)
    } else {
        bytes.len() as int
    };
    let chunk = bytes.subrange(start, end);
    if k == n - 1 && chunk.len() < 31 {
        le_int(chunk.push(1))
    } else {
        le_int(chunk)
    }
}

/// The element sequence a byte string is absorbed as.
pub open spec fn byte_elems(bytes: Seq<u8>) -> Seq<int> {
    Seq::new(num_chunks(bytes.len()), |k: int| chunk_elem(bytes, k))
}

/// The digest of a byte input.
pub open spec fn hash_bytes_spec(bytes: Seq<u8>) -> Seq<int> {
    hash_field_spec(byte_elems(bytes))
}

/// The digest of merging two digests: their elements fill the first two
/// rate positions of a fresh state, one permutation is applied, and the
/// first element is squeezed.
pub open spec fn merge_spec(a: Seq<int>, b: Seq<int>) -> Seq<int> {
    permutation_spec(zero_state().update(0, a[0]).update(1, b[0])).subrange(0, 1)
}

/// The Jive sum of input and permuted state over `k` terms with stride
/// `c`, starting at column `i`.
pub open spec fn jive_sum(s: Seq<int>, p: Seq<int>, i: int, c: int, k: nat) -> int
    decreases k,
{
    if k == 0 {
        0
    } else {
        jive_sum(s, p, i, c, (k - 1) as nat) + s[i + c * (k - 1)] + p[i + c * (k - 1)]
    }
}

/// The Jive compression of a full state by a factor `k`.
pub open spec fn compress_k_spec(s: Seq<int>, k: nat) -> Seq<int> {
    Seq::new((12int / k as int) as nat, |i: int| jive_sum(s, permutation_spec(s), i, 12int / k as int, k) % q())
}

/// The two-to-one Jive compression: each output column is the sum of the
/// two input and the two permuted-state entries of that column.
pub open spec fn compress_spec(s: Seq<int>) -> Seq<int> {
    let p = permutation_spec(s);
    Seq::new(6, |i: int| (s[i] + s[i + 6] + p[i] + p[i + 6]) % q())
}


/// Builds the field element absorbed for chunk `k` of a byte string: its
/// bytes in little-endian order, a sentinel byte of one when the last
/// chunk is short, and zero padding to the 32-byte decoding width.
fn chunk_to_elem(bytes: &Vec<u8>, k: usize, n: usize) -> (e: Felt)
    requires
        n == num_chunks(bytes@.len()),
        k < n,
    ensures
        fq(e) == chunk_elem(bytes@, k as int),
{
    let ghost bs: Seq<u8> = bytes@;
    let blen = bytes.len();
    proof {
        assert(bs.len() == blen);
        if bs.len() > 0 {
            vstd::arithmetic::div_mod::lemma_fundamental_div_mod((bs.len() + 30) as int, 31int);
            assert(31 * (n as int) <= bs.len() + 30);
            assert(31 * (k as int) <= 31 * ((n - 1) as int));
            assert(31 * (k as int) < bs.len());
        } else {
            assert(k == 0);
        }
    }
    let start = 31 * k;
    let end = if bytes.len() - start >= 31 {
        start + 31
    } else {
        bytes.len()
    };
    let mut buf: Vec<u8> = Vec::new();
    let mut t = start;
    while t < end
        invariant
            start <= t <= end <= bs.len(),
            end - start <= 31,
            bs == bytes@,
            buf@ == bs.subrange(start as int, t as int),
        decreases end - t,
    {
        let b = bytes[t];
        buf.push(b);
        proof {
            assert(buf@ =~= bs.subrange(start as int, t + 1));
        }
        t = t + 1;
    }
    let ghost chunk: Seq<u8> = bs.subrange(start as int, end as int);
    let ghost v: int = chunk_elem(bs, k as int);
    if buf.len() < 31 {
        buf.push(1);
        proof {
            assert(buf@ == chunk.push(1));
            assert(v == le_int(buf@));
        }
    } else {
        proof {
            assert(v == le_int(buf@));
        }
    }
    let ghost short: Seq<u8> = buf@;
    proof {
        lemma_le_int_bound(short);
        lemma_pow_increases(256nat, short.len(), 31nat);
        assert(pow(256, 31) == 0x100000000000000000000000000000000000000000000000000000000000000int)
            by {
            reveal_with_fuel(pow, 32);
        };
    }
    proof {
        assert(v < q());
    }
    while buf.len() < 32
        invariant
            short.len() <= buf.len() <= 32,
            le_int(buf@) == v,
            0 <= v < q(),
        decreases 32 - buf.len(),
    {
        proof {
            lemma_le_int_snoc(buf@, 0);
        }
        buf.push(0);
    }
    fq_from_le_bytes(&buf)
}

/// An Anemoi hash digest: one field element.
#[derive(Clone, Debug, PartialEq, Eq)]
pub struct AnemoiDigest {
    elements: Vec<Felt>,
}

impl View for AnemoiDigest {
    type V = Seq<int>;

    closed spec fn view(&self) -> Seq<int> {
        vals(self.elements@)
    }
}

impl AnemoiDigest {
    /// Wraps a digest-sized vector of elements.
    pub fn new(elements: Vec<Felt>) -> (d: Self)
        requires
            elements.len() == 1,
        ensures
            d@ == vals(elements@),
            d@.len() == 1,
    {
        AnemoiDigest { elements }
    }

    /// Hands the digest elements out by value.
    pub fn to_elements(&self) -> (r: Vec<Felt>)
        ensures
            vals(r@) == self@,
    {
        let mut r: Vec<Felt> = Vec::new();
        for i in 0..self.elements.len()
            invariant
                r.len() == i,
                i <= self.elements.len(),
                forall|j: int| 0 <= j < i ==> #[trigger] r@[j] == self.elements@[j],
        {
            let e = self.elements[i];
            r.push(e);
        }
        proof {
            assert(vals(r@) =~= vals(self.elements@));
        }
        r
    }

    /// Borrows the digest elements.
    pub fn as_elements(&self) -> (r: &Vec<Felt>)
        ensures
            vals(r@) == self@,
    {
        &self.elements
    }
}

/// An Anemoi sponge hasher: the working state and the absorption index.
#[derive(Clone, Debug, PartialEq, Eq)]
pub struct AnemoiHash {
    state: Vec<Felt>,
    idx: usize,
}

impl AnemoiHash {
    /// The residues the hasher's state holds.
    pub closed spec fn state_view(&self) -> Seq<int> {
        vals(self.state@)
    }

    /// The hasher's absorption index.
    pub closed spec fn index_view(&self) -> nat {
        self.idx as nat
    }
}

impl Default for AnemoiHash {
    /// A fresh hasher: the all-zero state and index zero.
    fn default() -> (h: Self)
        ensures
            h.state_view() == zero_state(),
            h.index_view() == 0,
    {
        let mut state: Vec<Felt> = Vec::new();
        for i in 0..12
            invariant
                state.len() == i,
                forall|j: int| 0 <= j < i ==> fq(#[trigger] state@[j]) == 0,
        {
            let z = fq_zero();
            state.push(z);
        }
        proof {
            assert(vals(state@) =~= zero_state());
        }
        AnemoiHash { state, idx: 0 }
    }
}

/// Builds a fresh all-zero state vector.
fn fresh_state() -> (s: Vec<Felt>)
    ensures
        s.len() == 12,
        vals(s@) == zero_state(),
{
    let mut state: Vec<Felt> = Vec::new();
    for i in 0..12
        invariant
            state.len() == i,
            forall|j: int| 0 <= j < i ==> fq(#[trigger] state@[j]) == 0,
    {
        let z = fq_zero();
        state.push(z);
    }
    proof {
        assert(vals(state@) =~= zero_state());
    }
    state
}

impl AnemoiHash {

    /// Hashes a byte string: the bytes are chunked into field elements,
    /// 31 bytes at a time with domain-separating padding, and absorbed
    /// like a field-element input.
    pub fn hash(bytes: &Vec<u8>) -> (d: AnemoiDigest)
        ensures
            d@ == hash_bytes_spec(bytes@),
            d@.len() == DIGEST_SIZE as int,
    {
        let ghost bs: Seq<u8> = bytes@;
        let ghost ev: Seq<int> = byte_elems(bs);
        let n: usize = if bytes.len() == 0 {
            1
        } else {
            (bytes.len() - 1) / 31 + 1
        };
        proof {
            assert(n == num_chunks(bs.len()));
        }
        let mut state = fresh_state();
        let mut i: usize = 0;
        proof {
            assert(ev.take(0) =~= Seq::<int>::empty());
        }
        let mut k: usize = 0;
        while k < n
            invariant
                state.len() == 12,
                k <= n,
                bs == bytes@,
                n == num_chunks(bs.len()),
                ev == byte_elems(bs),
                ev.len() == n,
                i == k % 11,
                vals(state@) == absorb_spec(ev.take(k as int)),
            decreases n - k,
        {
            let e = chunk_to_elem(bytes, k, n);
            let cur = state[i];
            let ne = fq_add(&cur, &e);
            state[i] = ne;
            proof {
                assert(ev.take(k + 1).drop_last() =~= ev.take(k as int));
                assert(ev.take(k + 1).last() == ev[k as int]);
                assert(vals(state@) =~= absorb_spec(ev.take(k as int)).update(
                    i as int,
                    (absorb_spec(ev.take(k as int))[i as int] + ev[k as int]) % q(),
                ));
            }
            i = i + 1;
            if i == 11 {
                apply_permutation(&mut state);
                i = 0;
            }
            k = k + 1;
            proof {
                assert(vals(state@) == absorb_spec(ev.take(k as int)));
            }
        }
        proof {
            assert(ev.take(ev.len() as int) =~= ev);
        }
        Self::finish(state, i, Ghost(ev))
    }

    /// Hashes a sequence of field elements.
    #[verifier::rlimit(50)]
    pub fn hash_field(elems: &Vec<Felt>) -> (d: AnemoiDigest)
        ensures
            d@ == hash_field_spec(vals(elems@)),
            d@.len() == DIGEST_SIZE as int,
    {
        let ghost ev: Seq<int> = vals(elems@);
        let mut state = fresh_state();
        let mut i: usize = 0;
        let mut k: usize = 0;
        proof {
            assert(ev.take(0) =~= Seq::<int>::empty());
        }
        while k < elems.len()
            invariant
                state.len() == 12,
                k <= elems.len(),
                elems.len() == ev.len(),
                ev == vals(elems@),
                i == k % 11,
                vals(state@) == absorb_spec(ev.take(k as int)),
            decreases elems.len() - k,
        {
            let e = elems[k];
            let cur = state[i];
            let ne = fq_add(&cur, &e);
            state[i] = ne;
            proof {
                assert(ev.take(k + 1).drop_last() =~= ev.take(k as int));
                assert(ev.take(k + 1).last() == ev[k as int]);
                assert(vals(state@) =~= absorb_spec(ev.take(k as int)).update(
                    i as int,
                    (absorb_spec(ev.take(k as int))[i as int] + ev[k as int]) % q(),
                ));
            }
            i = i + 1;
            if i == 11 {
                apply_permutation(&mut state);
                i = 0;
            }
            k = k + 1;
            proof {
                assert(vals(state@) == absorb_spec(ev.take(k as int)));
            }
        }
        proof {
            assert(ev.take(ev.len() as int) =~= ev);
        }
        Self::finish(state, i, Ghost(ev))
    }

    /// The shared tail of hashing: the `sigma` tweak, the optional
    /// trailing one and final permutation, and the squeeze.
    fn finish(state: Vec<Felt>, i: usize, Ghost(ev): Ghost<Seq<int>>) -> (d: AnemoiDigest)
        requires
            state.len() == 12,
            i == ev.len() % 11,
            vals(state@) == absorb_spec(ev),
        ensures
            d@ == hash_field_spec(ev),
            d@.len() == 1,
    {
        let mut state = state;
        let sig = if i == 0 {
            fq_one()
        } else {
            fq_zero()
        };
        proof {
            assert(fq(sig) == sigma(ev.len()));
        }
        let cur = state[11];
        let ns = fq_add(&cur, &sig);
        state[11] = ns;
        proof {
            assert(vals(state@) =~= absorb_spec(ev).update(
                11,
                (absorb_spec(ev)[11] + sigma(ev.len())) % q(),
            ));
        }
        if i != 0 {
            let one = fq_one();
            let cur2 = state[i];
            let n2 = fq_add(&cur2, &one);
            state[i] = n2;
            proof {
                let st1 = absorb_spec(ev).update(11, (absorb_spec(ev)[11] + sigma(ev.len())) % q());
                assert(vals(state@) =~= st1.update(i as int, (st1[i as int] + 1) % q()));
            }
            apply_permutation(&mut state);
        }
        proof {
            assert(vals(state@) == hash_state(ev));
        }
        let mut out: Vec<Felt> = Vec::new();
        let d0 = state[0];
        out.push(d0);
        proof {
            assert(vals(out@) =~= hash_state(ev).subrange(0, 1));
        }
        AnemoiDigest::new(out)
    }

    /// Merges two digests into one: both fill the rate of a fresh state,
    /// which is permuted once and squeezed.
    pub fn merge(digests: &[AnemoiDigest; 2]) -> (d: AnemoiDigest)
        requires
            digests[0]@.len() == 1,
            digests[1]@.len() == 1,
        ensures
            d@ == merge_spec(digests[0]@, digests[1]@),
            d@.len() == 1,
    {
        let mut state = fresh_state();
        let e0 = digests[0].as_elements()[0];
        let e1 = digests[1].as_elements()[0];
        state[0] = e0;
        state[1] = e1;
        proof {
            assert(vals(state@) =~= zero_state().update(0, digests[0]@[0]).update(
                1,
                digests[1]@[0],
            ));
        }
        apply_permutation(&mut state);
        let mut out: Vec<Felt> = Vec::new();
        let d0 = state[0];
        out.push(d0);
        proof {
            assert(vals(out@) =~= merge_spec(digests[0]@, digests[1]@));
        }
        AnemoiDigest::new(out)
    }

    /// Compresses a full state to six elements: the columnwise sum of the
    /// input and its permutation image, both rows folded together.
    pub fn compress(elems: &Vec<Felt>) -> (r: Vec<Felt>)
        requires
            elems.len() == 12,
        ensures
            vals(r@) == compress_spec(vals(elems@)),
            r.len() == NUM_COLUMNS,
    {
        let ghost sv: Seq<int> = vals(elems@);
        let mut state: Vec<Felt> = Vec::new();
        for i in 0..12
            invariant
                elems.len() == 12,
                state.len() == i,
                sv == vals(elems@),
                forall|j: int| 0 <= j < i ==> #[trigger] state@[j] == elems@[j],
        {
            let e = elems[i];
            state.push(e);
        }
        proof {
            assert(vals(state@) =~= sv);
        }
        apply_permutation(&mut state);
        let ghost pv: Seq<int> = permutation_spec(sv);
        let mut r: Vec<Felt> = Vec::new();
        for i in 0..6
            invariant
                elems.len() == 12,
                state.len() == 12,
                sv == vals(elems@),
                vals(state@) == pv,
                r.len() == i,
                forall|j: int| 0 <= j < i ==> fq(#[trigger] r@[j])
                    == (sv[j] + sv[j + 6] + pv[j] + pv[j + 6]) % q(),
        {
            let a = elems[i];
            let b = elems[i + 6];
            let c = state[i];
            let d = state[i + 6];
            let t1 = fq_add(&a, &b);
            let t2 = fq_add(&t1, &c);
            let t3 = fq_add(&t2, &d);
            proof {
                let s1: int = sv[i as int] + sv[i + 6];
                lemma_add_mod_noop_right(0, s1, q());
                assert(fq(t2) == (s1 + pv[i as int]) % q()) by {
                    lemma_mod_twice(s1, q());
                    lemma_add_mod_noop_right(pv[i as int], s1, q());
                };
                assert(fq(t3) == (s1 + pv[i as int] + pv[i + 6]) % q()) by {
                    lemma_mod_twice(s1 + pv[i as int], q());
                    lemma_add_mod_noop_right(pv[i + 6], s1 + pv[i as int], q());
                };
            }
            r.push(t3);
        }
        proof {
            assert(vals(r@) =~= compress_spec(sv));
        }
        r
    }

    /// Compresses a full state by any factor `k` that divides its width:
    /// output column `i` sums the input and permuted-state entries of
    /// every column congruent to `i` modulo the output width.
    pub fn compress_k(elems: &Vec<Felt>, k: usize) -> (r: Vec<Felt>)
        requires
            elems.len() == 12,
            1 <= k <= 12,
            12int % (k as int) == 0,
        ensures
            vals(r@) == compress_k_spec(vals(elems@), k as nat),
            r.len() == 12int / (k as int),
    {
        let ghost sv: Seq<int> = vals(elems@);
        let mut state: Vec<Felt> = Vec::new();
        for i in 0..12
            invariant
                elems.len() == 12,
                state.len() == i,
                sv == vals(elems@),
                forall|j: int| 0 <= j < i ==> #[trigger] state@[j] == elems@[j],
        {
            let e = elems[i];
            state.push(e);
        }
        proof {
            assert(vals(state@) =~= sv);
        }
        apply_permutation(&mut state);
        let ghost pv: Seq<int> = permutation_spec(sv);
        let c = 12 / k;
        proof {
            assert(c * k == 12) by (nonlinear_arith)
                requires
                    c == 12int / (k as int),
                    12int % (k as int) == 0,
                    1 <= k <= 12,
            ;
        }
        let mut r: Vec<Felt> = Vec::new();
        for i in 0..c
            invariant
                elems.len() == 12,
                state.len() == 12,
                sv == vals(elems@),
                vals(state@) == pv,
                1 <= k <= 12,
                c == 12int / (k as int),
                c * k == 12,
                r.len() == i,
                forall|j: int| 0 <= j < i ==> fq(#[trigger] r@[j])
                    == jive_sum(sv, pv, j, c as int, k as nat) % q(),
        {
            let mut acc = fq_zero();
            proof {
                lemma_small_mod(0nat, q() as nat);
            }
            for j in 0..k
                invariant
                    elems.len() == 12,
                    state.len() == 12,
                    sv == vals(elems@),
                    vals(state@) == pv,
                    1 <= k <= 12,
                    c == 12int / (k as int),
                    c * k == 12,
                    i < c,
                    fq(acc) == jive_sum(sv, pv, i as int, c as int, j as nat) % q(),
            {
                proof {
                    assert(i + c * j < c * k) by (nonlinear_arith)
                        requires
                            0 <= i < c,
                            0 <= j < k,
                            c >= 1,
                    ;
                }
                let idx = i + c * j;
                let a = elems[idx];
                let b = state[idx];
                let t = fq_add(&a, &b);
                proof {
                    let part: int = jive_sum(sv, pv, i as int, c as int, j as nat);
                    lemma_add_mod_noop(part, sv[idx as int] + pv[idx as int], q());
                    lemma_mod_twice(sv[idx as int] + pv[idx as int], q());
                }
                acc = fq_add(&acc, &t);
            }
            r.push(acc);
        }
        proof {
            assert(vals(r@) =~= compress_k_spec(sv, k as nat));
        }
        r
    }
}


/// Zero bytes appended to a byte string do not change its little-endian
/// value.
pub proof fn lemma_le_int_zero_pad(s: Seq<u8>, j: nat)
    ensures
        le_int(s + Seq::new(j, |i: int| 0u8)) == le_int(s),
    decreases j,
{
    if j == 0 {
        assert(s + Seq::new(0, |i: int| 0u8) =~= s);
    } else {
        lemma_le_int_zero_pad(s, (j - 1) as nat);
        assert(s + Seq::new(j, |i: int| 0u8)
            =~= (s + Seq::new((j - 1) as nat, |i: int| 0u8)).push(0));
        lemma_le_int_snoc(s + Seq::new((j - 1) as nat, |i: int| 0u8), 0);
    }
}

/// Padding domain separation: appending one or more zero bytes to an
/// input whose length is not a multiple of the chunk size changes the
/// absorbed element sequence, because the shorter input's last chunk
/// carries its sentinel byte where the longer one carries a zero.
pub proof fn lemma_padding_domain_separation(a: Seq<u8>, t: nat)
    requires
        a.len() % 31 != 0,
        t > 0,
    ensures
        byte_elems(a + Seq::new(t, |i: int| 0u8)) != byte_elems(a),
{
    let zs = Seq::new(t, |i: int| 0u8);
    let b = a + zs;
    let len = a.len() as int;
    let m = len / 31;
    let rem = len % 31;
    let k = m;
    vstd::arithmetic::div_mod::lemma_fundamental_div_mod(len, 31);
    assert(len == 31 * m + rem);
    assert(0 < rem < 31);
    vstd::arithmetic::div_mod::lemma_fundamental_div_mod_converse(len + 30, 31, m + 1, rem - 1);
    assert(num_chunks(a.len()) == m + 1);
    let ca = a.subrange(31 * k, len);
    assert(ca.len() == rem);
    assert(chunk_elem(a, k) == le_int(ca.push(1)));
    lemma_le_int_snoc(ca, 1);
    assert(chunk_elem(a, k) == le_int(ca) + pow(256, rem as nat));
    vstd::arithmetic::power::lemma_pow_positive(256, rem as nat);
    let lenb = b.len() as int;
    assert(lenb == len + t);
    if rem + t < 31 {
        vstd::arithmetic::div_mod::lemma_fundamental_div_mod_converse(
            lenb + 30, 31, m + 1, rem + t - 1,
        );
        assert(num_chunks(b.len()) == m + 1);
        let cb = b.subrange(31 * k, lenb);
        assert(cb =~= ca + Seq::new(t, |i: int| 0u8));
        assert(cb.len() == rem + t < 31);
        assert(chunk_elem(b, k) == le_int(cb.push(1)));
        lemma_le_int_snoc(cb, 1);
        lemma_le_int_zero_pad(ca, t);
        assert(chunk_elem(b, k) == le_int(ca) + pow(256, (rem + t) as nat));
        vstd::arithmetic::power::lemma_pow_strictly_increases(
            256, rem as nat, (rem + t) as nat,
        );
        assert(chunk_elem(b, k) != chunk_elem(a, k));
    } else {
        assert(31 * (k + 1) <= lenb);
        vstd::arithmetic::div_mod::lemma_fundamental_div_mod((lenb + 30) as int, 31int);
        vstd::arithmetic::div_mod::lemma_div_is_ordered(
            31 * (m + 1) + 30, lenb + 30, 31,
        );
        vstd::arithmetic::div_mod::lemma_fundamental_div_mod_converse(
            31 * (m + 1) + 30, 31, m + 1, 30,
        );
        assert(num_chunks(b.len()) >= m + 1);
        let cb = b.subrange(31 * k, 31 * (k + 1));
        assert(cb =~= ca + Seq::new((31 - rem) as nat, |i: int| 0u8));
        assert(cb.len() == 31);
        assert(chunk_elem(b, k) == le_int(cb));
        lemma_le_int_zero_pad(ca, (31 - rem) as nat);
        assert(chunk_elem(b, k) == le_int(ca));
        assert(chunk_elem(b, k) != chunk_elem(a, k));
    }
    assert(byte_elems(b)[k] != byte_elems(a)[k]);
}

/// The domain-separation rule of the sponge tail: an input that fills
/// the rate exactly adds one to the last capacity element and is not
/// permuted again; any other input leaves the capacity as it stands,
/// adds a trailing one at the next rate position, and is permuted once
/// more.
pub proof fn lemma_sigma_invariant(elems: Seq<int>)
    ensures
        elems.len() % 11 == 0 ==> hash_state(elems) == absorb_spec(elems).update(
            11,
            (absorb_spec(elems)[11] + 1) % q(),
        ),
        elems.len() % 11 != 0 ==> {
            let st1 = absorb_spec(elems).update(11, (absorb_spec(elems)[11] + 0) % q());
            let idx = (elems.len() as int) % 11;
            hash_state(elems) == permutation_spec(st1.update(idx, (st1[idx] + 1) % q()))
        },
{
}

/// The two-to-one compression is exactly the Jive compression with
/// factor two: folding the two rows columnwise is the stride-six sum
/// over two terms.
pub proof fn lemma_compress_is_compress_k_two(s: Seq<int>)
    ensures
        compress_spec(s) == compress_k_spec(s, 2),
{
    let p = permutation_spec(s);
    assert forall|i: int| 0 <= i < 6 implies compress_k_spec(s, 2)[i]
        == (s[i] + s[i + 6] + p[i] + p[i + 6]) % q() by {
        assert(jive_sum(s, p, i, 6, 0) == 0);
        assert(jive_sum(s, p, i, 6, 1) == s[i] + p[i]);
        assert(jive_sum(s, p, i, 6, 2) == s[i] + p[i] + s[i + 6] + p[i + 6]);
    }
    assert(compress_spec(s) =~= compress_k_spec(s, 2));
}

} // verus!
