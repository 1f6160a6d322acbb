//! A Bloom filter over words: a bit array probed at positions derived from one
//! hash of the word by double hashing.

use crate::fxhash::{fxhash32_multi, nth_hash, spec_fxhash64};
use vstd::prelude::*;
use vstd::string::StringSliceAdditionalSpecFns;

verus! {

/// Whether bit `pos` is set in `bytes`, bits counted from the least significant
/// bit of the first byte.
pub open spec fn bit_at(bytes: Seq<u8>, pos: int) -> bool {
    (bytes[pos / 8] >> ((pos % 8) as u8)) & 1 == 1
}

/// The position probed for a word with hash `hash` at round `i`, in a filter of
/// `num_bits` bits.
pub open spec fn probe(hash: u64, i: int, num_bits: int) -> int {
    nth_hash(hash, i as u32) as int % num_bits
}

/// A probabilistic set of words with no false negatives.
pub struct BloomFilter {
    filter: Vec<u8>,
    num_hash: u8,
}

/// The mathematical value of a [`BloomFilter`]: its bytes and its hash count.
pub struct BloomFilterView {
    pub bytes: Seq<u8>,
    pub num_hash: nat,
}

impl View for BloomFilter {
    type V = BloomFilterView;

    open spec fn view(&self) -> BloomFilterView {
        BloomFilterView { bytes: self.bytes(), num_hash: self.hash_count() }
    }
}

impl DeepView for BloomFilter {
    type V = BloomFilterView;

    open spec fn deep_view(&self) -> BloomFilterView {
        self@
    }
}

impl BloomFilterView {
    /// The number of bits of the filter.
    pub open spec fn num_bits(self) -> int {
        (self.bytes.len() * 8) as int
    }

    /// What every filter satisfies: its bit positions fit in 32 bits, and it
    /// holds at least one byte unless it probes nothing.
    pub open spec fn wf(self) -> bool {
        &&& self.num_bits() <= u32::MAX
        &&& self.num_hash > 0 ==> self.bytes.len() > 0
        &&& self.num_hash <= u8::MAX
    }

    /// Whether bit `pos` of the filter is set.
    pub open spec fn bit(self, pos: int) -> bool {
        bit_at(self.bytes, pos)
    }

    /// Whether position `pos` is one of those probed for a word with UTF-8
    /// bytes `word`.
    pub open spec fn probes(self, word: Seq<u8>, pos: int) -> bool {
        exists|i: int|
            0 <= i < self.num_hash && pos == #[trigger] probe(
                spec_fxhash64(word),
                i,
                self.num_bits(),
            )
    }

    /// Whether every position probed for `word` is set: the filter's answer to
    /// "may `word` have been inserted?".
    pub open spec fn contains(self, word: Seq<u8>) -> bool {
        forall|i: int|
            0 <= i < self.num_hash ==> self.bit(
                #[trigger] probe(spec_fxhash64(word), i, self.num_bits()),
            )
    }

    /// Whether `after` is `self` with `word` inserted: the same size and hash
    /// count, and a bit set exactly where it was set before or is probed for
    /// `word`.
    pub open spec fn inserted(self, word: Seq<u8>, after: BloomFilterView) -> bool {
        &&& after.num_hash == self.num_hash
        &&& after.bytes.len() == self.bytes.len()
        &&& forall|pos: int|
            0 <= pos < self.num_bits() ==> (after.bit(pos) <==> self.bit(pos) || self.probes(
                word,
                pos,
            ))
    }

    /// The filter of no bytes that probes nothing.
    pub open spec fn empty() -> BloomFilterView {
        BloomFilterView { bytes: Seq::empty(), num_hash: 0 }
    }
}

impl BloomFilter {
    /// The bit array, eight bits to the byte.
    pub closed spec fn bytes(&self) -> Seq<u8> {
        self.filter@
    }

    /// The number of positions probed for each word.
    pub closed spec fn hash_count(&self) -> nat {
        self.num_hash as nat
    }

    /// The number of bits of the filter.
    #[verifier::inline]
    pub open spec fn num_bits(&self) -> int {
        self@.num_bits()
    }

    /// What every filter satisfies.
    #[verifier::inline]
    pub open spec fn wf(&self) -> bool {
        self@.wf()
    }

    #[verifier::type_invariant]
    spec fn inv(&self) -> bool {
        self.wf()
    }

    /// Whether bit `pos` of the filter is set.
    #[verifier::inline]
    pub open spec fn bit(&self, pos: int) -> bool {
        self@.bit(pos)
    }

    /// Whether position `pos` is one of those probed for a word with UTF-8
    /// bytes `word`.
    #[verifier::inline]
    pub open spec fn probes(&self, word: Seq<u8>, pos: int) -> bool {
        self@.probes(word, pos)
    }

    /// Whether every position probed for `word` is set.
    #[verifier::inline]
    pub open spec fn spec_contains(&self, word: Seq<u8>) -> bool {
        self@.contains(word)
    }

    /// Whether `after` is `self` with `word` inserted.
    #[verifier::inline]
    pub open spec fn inserted(&self, word: Seq<u8>, after: &BloomFilter) -> bool {
        self@.inserted(word, after@)
    }

    /// An empty filter of `num_byte` bytes that probes `num_hash` positions for
    /// each word.
    pub fn new(num_byte: usize, num_hash: u8) -> (filter: Self)
        requires
            num_byte * 8 <= u32::MAX,
            num_hash > 0 ==> num_byte > 0,
        ensures
            filter.wf(),
            filter.hash_count() == num_hash,
            filter.bytes() == Seq::new(num_byte as nat, |i: int| 0u8),
            forall|pos: int| 0 <= pos < filter.num_bits() ==> !filter.bit(pos),
    {
        let filter = Self { filter: vec![0u8; num_byte], num_hash };
        proof {
            assert(filter.filter@ =~= Seq::new(num_byte as nat, |i: int| 0u8));
            assert forall|pos: int| 0 <= pos < filter.num_bits() implies !filter.bit(pos) by {
                let shift = (pos % 8) as u8;
                assert((0u8 >> shift) & 1 == 0) by (bit_vector);
            }
        }
        filter
    }

    /// The filter's bytes.
    pub fn filter(&self) -> (bytes: &Vec<u8>)
        ensures
            bytes@ == self.bytes(),
            self.wf(),
    {
        proof {
            use_type_invariant(self);
        }
        &self.filter
    }

    /// The number of positions probed for each word.
    pub fn num_hash(&self) -> (count: u8)
        ensures
            count == self.hash_count(),
    {
        self.num_hash
    }

    /// Sets every position probed for `word`, and no other.
    pub fn insert_word(&mut self, word: &str)
        ensures
            final(self).wf(),
            old(self).inserted(word.spec_bytes(), final(self)),
    {
        proof {
            use_type_invariant(&*self);
        }
        let rounds: u32 = self.num_hash as u32;
        if rounds == 0 {
            return ;
        }
        let num_bit: u32 = (self.filter.len() as u32) * 8;
        let hashes = fxhash32_multi(word, rounds);
        let ghost hash = spec_fxhash64(word.spec_bytes());
        let mut i: usize = 0;
        while i < hashes.len()
            invariant
                i <= rounds,
                rounds == old(self).hash_count(),
                hashes@.len() == rounds,
                forall|j: int| 0 <= j < rounds ==> hashes@[j] == nth_hash(hash, j as u32),
                hash == spec_fxhash64(word.spec_bytes()),
                self.wf(),
                self.num_hash == old(self).num_hash,
                self.filter@.len() == old(self).filter@.len(),
                num_bit == self.filter@.len() * 8,
                num_bit > 0,
                forall|pos: int|
                    0 <= pos < num_bit ==> (self.bit(pos) <==> old(self).bit(pos) || exists|j: int|
                        0 <= j < i && pos == #[trigger] probe(hash, j, num_bit as int)),
            decreases hashes.len() - i,
        {
            let pos: u32 = hashes[i] % num_bit;
            let index: usize = (pos / 8) as usize;
            let shift: u32 = pos % 8;
            let before: u8 = self.filter[index];
            let after: u8 = before | (1u8 << shift);
            let ghost prev = self.filter@;
            proof {
                assert(forall|p: int|
                    0 <= p < num_bit ==> (bit_at(prev, p) <==> old(self).bit(p) || exists|j: int|
                        0 <= j < i && p == #[trigger] probe(hash, j, num_bit as int))) by {
                    assert(forall|p: int| self.bit(p) == bit_at(prev, p));
                }
            }
            self.filter[index] = after;
            proof {
                assert(self.filter@ == prev.update(index as int, after));
                assert(pos as int == probe(hash, i as int, num_bit as int));
                assert forall|p: int| 0 <= p < num_bit implies (self.bit(p) <==> old(self).bit(p)
                    || exists|j: int|
                    0 <= j < i + 1 && p == #[trigger] probe(hash, j, num_bit as int)) by {
                    let q = (p % 8) as u8;
                    let earlier = exists|j: int|
                        0 <= j < i && p == #[trigger] probe(hash, j, num_bit as int);
                    let now = exists|j: int|
                        0 <= j < i + 1 && p == #[trigger] probe(hash, j, num_bit as int);
                    assert(now <==> earlier || p == pos as int) by {
                        if now {
                            let j = choose|j: int|
                                0 <= j < i + 1 && p == #[trigger] probe(hash, j, num_bit as int);
                            if j == i {
                            } else {
                                assert(0 <= j < i && p == probe(hash, j, num_bit as int));
                            }
                        }
                        if earlier {
                            let j = choose|j: int|
                                0 <= j < i && p == #[trigger] probe(hash, j, num_bit as int);
                            assert(0 <= j < i + 1 && p == probe(hash, j, num_bit as int));
                        }
                    }
                    assert(self.bit(p) == bit_at(self.filter@, p));
                    if p / 8 == index as int {
                        assert(self.filter@[p / 8] == after);
                        assert(prev[p / 8] == before);
                        assert(((before | (1u8 << shift)) >> q) & 1 == 1 <==> ((before >> q) & 1
                            == 1 || q == shift)) by (bit_vector)
                            requires
                                q < 8,
                                shift < 8,
                        ;
                        assert(q as int == shift as int <==> p == pos as int);
                        assert(bit_at(self.filter@, p) <==> bit_at(prev, p) || p == pos as int);
                    } else {
                        assert(self.filter@[p / 8] == prev[p / 8]);
                        assert(p != pos as int);
                        assert(bit_at(self.filter@, p) <==> bit_at(prev, p) || p == pos as int);
                    }
                    assert(bit_at(prev, p) <==> old(self).bit(p) || earlier);
                }
            }
            i += 1;
        }
    }

    /// Whether every position probed for `word` is set.
    pub fn contains(&self, word: &str) -> (present: bool)
        ensures
            present == self.spec_contains(word.spec_bytes()),
    {
        proof {
            use_type_invariant(self);
        }
        let rounds: u32 = self.num_hash as u32;
        if rounds == 0 {
            return true;
        }
        let num_bit: u32 = (self.filter.len() as u32) * 8;
        let hashes = fxhash32_multi(word, rounds);
        let ghost hash = spec_fxhash64(word.spec_bytes());
        let mut i: usize = 0;
        while i < hashes.len()
            invariant
                i <= rounds,
                rounds == self.hash_count(),
                hashes@.len() == rounds,
                forall|j: int| 0 <= j < rounds ==> hashes@[j] == nth_hash(hash, j as u32),
                hash == spec_fxhash64(word.spec_bytes()),
                self.wf(),
                num_bit == self.num_bits(),
                num_bit > 0,
                forall|j: int| 0 <= j < i ==> self.bit(#[trigger] probe(hash, j, num_bit as int)),
            decreases hashes.len() - i,
        {
            let pos: u32 = hashes[i] % num_bit;
            let index: usize = (pos / 8) as usize;
            let shift: u32 = pos % 8;
            let byte: u8 = self.filter[index];
            assert(pos as int == probe(hash, i as int, num_bit as int));
            assert((byte & (1u8 << shift)) != 0 <==> (byte >> (shift as u8)) & 1 == 1)
                by (bit_vector)
                requires
                    shift < 8,
            ;
            if (byte & (1u8 << shift)) == 0 {
                return false;
            }
            i += 1;
        }
        true
    }
}

/// No false negatives, first half: a word tests positive in the filter it was
/// just inserted into.
pub proof fn lemma_inserted_word_is_contained(
    before: BloomFilterView,
    word: Seq<u8>,
    after: BloomFilterView,
)
    requires
        before.wf(),
        before.inserted(word, after),
    ensures
        after.contains(word),
{
    let hash = spec_fxhash64(word);
    let bits = before.num_bits();
    assert forall|i: int| 0 <= i < after.num_hash implies after.bit(
        #[trigger] probe(hash, i, after.num_bits()),
    ) by {
        let pos = probe(hash, i, bits);
        assert(0 <= pos < bits);
        assert(before.probes(word, pos));
    }
}

/// No false negatives, second half: a word that tests positive still does
/// after any other word is inserted.
pub proof fn lemma_insertion_keeps_words(
    before: BloomFilterView,
    word: Seq<u8>,
    after: BloomFilterView,
    earlier: Seq<u8>,
)
    requires
        before.wf(),
        before.inserted(word, after),
        before.contains(earlier),
    ensures
        after.contains(earlier),
{
    let hash = spec_fxhash64(earlier);
    let bits = before.num_bits();
    assert forall|i: int| 0 <= i < after.num_hash implies after.bit(
        #[trigger] probe(hash, i, after.num_bits()),
    ) by {
        let pos = probe(hash, i, bits);
        assert(0 <= pos < bits);
        assert(before.bit(pos));
    }
}

/// No false negatives: after any run of insertions, every word that was
/// inserted tests positive. `filters` are the filters the run passes through,
/// from the one it starts with to the one it ends with; `words[i]` is the word
/// whose insertion leads from `filters[i]` to `filters[i + 1]`.
pub proof fn lemma_no_false_negatives(filters: Seq<BloomFilterView>, words: Seq<Seq<u8>>, w: int)
    requires
        filters.len() == words.len() + 1,
        filters[0].wf(),
        forall|i: int|
            0 <= i < words.len() ==> (#[trigger] filters[i]).inserted(words[i], filters[i + 1]),
        0 <= w < words.len(),
    ensures
        filters.last().contains(words[w]),
{
    lemma_insertions_keep_wf(filters, words, words.len() as int);
    lemma_insertions_keep_word(filters, words, w, words.len() as int);
}

/// Every filter of a run of insertions is well formed and of the size of the
/// first.
proof fn lemma_insertions_keep_wf(filters: Seq<BloomFilterView>, words: Seq<Seq<u8>>, n: int)
    requires
        filters.len() == words.len() + 1,
        filters[0].wf(),
        forall|i: int|
            0 <= i < words.len() ==> (#[trigger] filters[i]).inserted(words[i], filters[i + 1]),
        0 <= n <= words.len(),
    ensures
        forall|i: int| 0 <= i <= n ==> (#[trigger] filters[i]).wf(),
    decreases n,
{
    if n > 0 {
        lemma_insertions_keep_wf(filters, words, n - 1);
        assert(filters[n - 1].inserted(words[n - 1], filters[n]));
    }
}

/// A word inserted at step `w` tests positive in every later filter of the
/// run.
proof fn lemma_insertions_keep_word(
    filters: Seq<BloomFilterView>,
    words: Seq<Seq<u8>>,
    w: int,
    n: int,
)
    requires
        filters.len() == words.len() + 1,
        forall|i: int| 0 <= i <= words.len() ==> (#[trigger] filters[i]).wf(),
        forall|i: int|
            0 <= i < words.len() ==> (#[trigger] filters[i]).inserted(words[i], filters[i + 1]),
        0 <= w < n <= words.len(),
    ensures
        filters[n].contains(words[w]),
    decreases n,
{
    assert(filters[n - 1].inserted(words[n - 1], filters[n]));
    if n == w + 1 {
        lemma_inserted_word_is_contained(filters[w], words[w], filters[n]);
    } else {
        lemma_insertions_keep_word(filters, words, w, n - 1);
        lemma_insertion_keeps_words(filters[n - 1], words[n - 1], filters[n], words[w]);
    }
}

impl Default for BloomFilter {
    /// The empty filter: no bytes, no probes.
    fn default() -> (filter: Self)
        ensures
            filter@ == BloomFilterView::empty(),
    {
        Self { filter: Vec::new(), num_hash: 0 }
    }
}

} // verus!
