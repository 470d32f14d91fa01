//! Record of which task ids have been seen: one bit per id, packed into
//! 64-bit words. Bits are only ever set, never cleared.
use vstd::prelude::*;

verus! {

/// Whether bit `b` of `w` is set.
pub open spec fn bit_set(w: u64, b: u64) -> bool {
    (w >> b) & 1u64 == 1u64
}

/// Words needed to hold one bit for each id in `[1, limit]`.
pub open spec fn word_count(limit: u32) -> nat {
    (limit as nat + 63) / 64
}

/// Whether `id` is a task id that a tracker for `limit` ids keeps.
pub open spec fn in_range(limit: u32, id: int) -> bool {
    1 <= id <= limit
}

/// The word that holds the bit of `id`.
pub open spec fn word_of(id: int) -> int {
    (id - 1) / 64
}

/// The position of the bit of `id` inside its word.
pub open spec fn bit_of(id: int) -> u64 {
    ((id - 1) % 64) as u64
}

/// Whether `words` mark `id` as seen.
pub open spec fn observed(words: Seq<u64>, limit: u32, id: int) -> bool {
    in_range(limit, id) && bit_set(words[word_of(id)], bit_of(id))
}

/// All ids that `words` mark as seen.
pub open spec fn observed_set(words: Seq<u64>, limit: u32) -> Set<int> {
    Set::new(|id: int| observed(words, limit, id))
}

/// The words after `id` is recorded: its bit is set when it is in range,
/// and nothing changes otherwise.
pub open spec fn recorded(words: Seq<u64>, limit: u32, id: int) -> Seq<u64> {
    if in_range(limit, id) {
        words.update(word_of(id), words[word_of(id)] | (1u64 << bit_of(id)))
    } else {
        words
    }
}

/// The ids in `[1, k]` that `words` do not mark as seen, in increasing order.
pub open spec fn missing_upto(words: Seq<u64>, limit: u32, k: nat) -> Seq<u32>
    decreases k,
{
    if k == 0 {
        seq![]
    } else {
        let before = missing_upto(words, limit, (k - 1) as nat);
        if observed(words, limit, k as int) {
            before
        } else {
            before.push(k as u32)
        }
    }
}

/// What recording `id` does, given the ids seen before.
pub open spec fn record_effect(limit: u32, seen: Set<int>, id: int) -> Record {
    if !in_range(limit, id) {
        Record::OutOfRange
    } else if seen.contains(id) {
        Record::Repeat
    } else {
        Record::Fresh
    }
}

/// What recording an id did.
#[derive(Debug, Clone, Copy, PartialEq, Eq, Structural)]
pub enum Record {
    /// The id was seen for the first time.
    Fresh,
    /// The id had been seen before; nothing changed.
    Repeat,
    /// The id is 0 or above the limit; nothing changed.
    OutOfRange,
}

/// The bits of task ids `1..=limit` that have been seen.
pub struct CompletionTracker {
    words: Vec<u64>,
    limit: u32,
}

proof fn lemma_zero_word(b: u64)
    requires
        b < 64,
    ensures
        !bit_set(0u64, b),
{
    assert(!((0u64 >> b) & 1u64 == 1u64)) by (bit_vector)
        requires
            b < 64,
    ;
}

proof fn lemma_mask_test(w: u64, b: u64)
    requires
        b < 64,
    ensures
        (w & (1u64 << b) == 0u64) == !bit_set(w, b),
{
    assert((w & (1u64 << b) == 0u64) == !((w >> b) & 1u64 == 1u64)) by (bit_vector)
        requires
            b < 64,
    ;
}

proof fn lemma_set_bit(w: u64, b: u64, c: u64)
    requires
        b < 64,
        c < 64,
    ensures
        bit_set(w | (1u64 << b), c) == (c == b || bit_set(w, c)),
{
    assert((((w | (1u64 << b)) >> c) & 1u64 == 1u64) == (c == b || ((w >> c) & 1u64 == 1u64)))
        by (bit_vector)
        requires
            b < 64,
            c < 64,
    ;
}

proof fn lemma_set_bits_commute(w: u64, b: u64, c: u64)
    ensures
        (w | (1u64 << b)) | (1u64 << c) == (w | (1u64 << c)) | (1u64 << b),
        (w | (1u64 << b)) | (1u64 << b) == w | (1u64 << b),
{
    assert((w | (1u64 << b)) | (1u64 << c) == (w | (1u64 << c)) | (1u64 << b)) by (bit_vector);
    assert((w | (1u64 << b)) | (1u64 << b) == w | (1u64 << b)) by (bit_vector);
}

/// Two ids with the same word and bit are the same id.
proof fn lemma_slot_unique(a: int, b: int)
    requires
        a >= 1,
        b >= 1,
        word_of(a) == word_of(b),
        bit_of(a) == bit_of(b),
    ensures
        a == b,
{
    assert((a - 1) % 64 == (b - 1) % 64);
    assert(a - 1 == 64 * ((a - 1) / 64) + (a - 1) % 64);
    assert(b - 1 == 64 * ((b - 1) / 64) + (b - 1) % 64);
}

proof fn lemma_word_in_bounds(limit: u32, id: int)
    requires
        in_range(limit, id),
    ensures
        0 <= word_of(id) < word_count(limit),
        bit_of(id) < 64,
{
    let n = limit as int;
    assert((id - 1) / 64 < (n + 63) / 64) by (nonlinear_arith)
        requires
            1 <= id <= n,
    ;
}

impl CompletionTracker {
    /// The words, one bit per id.
    pub closed spec fn words(self) -> Seq<u64> {
        self.words@
    }

    /// The largest id that is kept.
    pub closed spec fn limit(self) -> u32 {
        self.limit
    }

    /// The word array has one bit for each id in range.
    pub open spec fn wf(self) -> bool {
        self.words().len() == word_count(self.limit())
    }

    /// The ids seen so far.
    pub open spec fn seen(self) -> Set<int> {
        observed_set(self.words(), self.limit())
    }

    /// A tracker for ids `1..=limit` in which no id has been seen.
    pub fn new(limit: u32) -> (r: Self)
        ensures
            r.wf(),
            r.limit() == limit,
            r.seen() == Set::<int>::empty(),
            forall|i: int| 0 <= i < r.words().len() ==> r.words()[i] == 0u64,
    {
        let n: usize = ((limit as u64 + 63) / 64) as usize;
        let mut words: Vec<u64> = Vec::new();
        while words.len() < n
            invariant
                n == word_count(limit),
                words@.len() <= n,
                forall|i: int| 0 <= i < words@.len() ==> words@[i] == 0u64,
            decreases n - words@.len(),
        {
            words.push(0u64);
        }
        let r = CompletionTracker { words, limit };
        assert forall|id: int| !observed(r.words(), limit, id) by {
            if in_range(limit, id) {
                lemma_word_in_bounds(limit, id);
                lemma_zero_word(bit_of(id));
            }
        }
        assert(r.seen() =~= Set::<int>::empty());
        r
    }

    /// The largest id that is kept.
    pub fn limit_of(&self) -> (r: u32)
        ensures
            r == self.limit(),
    {
        self.limit
    }

    /// Whether `id` has been seen.
    pub fn is_observed(&self, id: u32) -> (r: bool)
        requires
            self.wf(),
        ensures
            r == observed(self.words(), self.limit(), id as int),
            r == self.seen().contains(id as int),
    {
        if id == 0 || id > self.limit {
            return false;
        }
        proof {
            lemma_word_in_bounds(self.limit, id as int);
        }
        let idx: u32 = id - 1;
        let b: u64 = (idx % 64) as u64;
        let w: u64 = self.words[(idx / 64) as usize];
        proof {
            lemma_mask_test(w, b);
        }
        w & (1u64 << b) != 0
    }

    /// Marks `id` as seen. An id outside `[1, limit]` changes nothing.
    pub fn record(&mut self, id: u32) -> (r: Record)
        requires
            old(self).wf(),
        ensures
            final(self).wf(),
            final(self).limit() == old(self).limit(),
            final(self).words() == recorded(old(self).words(), old(self).limit(), id as int),
            final(self).seen() == (if in_range(old(self).limit(), id as int) {
                old(self).seen().insert(id as int)
            } else {
                old(self).seen()
            }),
            r == record_effect(old(self).limit(), old(self).seen(), id as int),
    {
        if id == 0 || id > self.limit {
            return Record::OutOfRange;
        }
        let ghost before = self.words@;
        proof {
            lemma_word_in_bounds(self.limit, id as int);
        }
        let idx: u32 = id - 1;
        let wi: usize = (idx / 64) as usize;
        let b: u64 = (idx % 64) as u64;
        let w: u64 = self.words[wi];
        proof {
            lemma_mask_test(w, b);
        }
        let fresh = w & (1u64 << b) == 0;
        self.words.set(wi, w | (1u64 << b));
        proof {
            lemma_record_seen(before, self.limit, id as int);
        }
        if fresh {
            Record::Fresh
        } else {
            Record::Repeat
        }
    }

    /// The ids in `[1, limit]` that have not been seen, in increasing order.
    pub fn missing(&self) -> (r: Vec<u32>)
        requires
            self.wf(),
        ensures
            r@ == missing_upto(self.words(), self.limit(), self.limit() as nat),
    {
        let mut r: Vec<u32> = Vec::new();
        let mut k: u32 = 0;
        while k < self.limit
            invariant
                self.wf(),
                k <= self.limit,
                r@ == missing_upto(self.words(), self.limit(), k as nat),
            decreases self.limit - k,
        {
            k = k + 1;
            if !self.is_observed(k) {
                r.push(k);
            }
        }
        r
    }
}

/// Recording an id in range adds exactly that id to the seen ids; recording
/// any other id changes nothing. No id that was seen stops being seen.
pub proof fn lemma_record_seen(words: Seq<u64>, limit: u32, id: int)
    requires
        words.len() == word_count(limit),
    ensures
        recorded(words, limit, id).len() == words.len(),
        observed_set(recorded(words, limit, id), limit) == (if in_range(limit, id) {
            observed_set(words, limit).insert(id)
        } else {
            observed_set(words, limit)
        }),
{
    if in_range(limit, id) {
        let after = recorded(words, limit, id);
        lemma_word_in_bounds(limit, id);
        assert forall|x: int| observed(after, limit, x) == (observed(words, limit, x) || x == id) by {
            if in_range(limit, x) {
                lemma_word_in_bounds(limit, x);
                if word_of(x) == word_of(id) {
                    lemma_set_bit(words[word_of(id)], bit_of(id), bit_of(x));
                    if bit_of(x) == bit_of(id) {
                        lemma_slot_unique(x, id);
                    }
                }
            }
        }
        assert(observed_set(after, limit) =~= observed_set(words, limit).insert(id));
    }
}

/// Each id in the list of missing ids is in range and unseen, and each
/// unseen id in range is in the list.
pub proof fn lemma_missing_members(words: Seq<u64>, limit: u32, k: nat, id: u32)
    requires
        k <= limit,
    ensures
        missing_upto(words, limit, k).contains(id) <==> (1 <= id <= k && !observed(
            words,
            limit,
            id as int,
        )),
    decreases k,
{
    if k > 0 {
        lemma_missing_members(words, limit, (k - 1) as nat, id);
        let before = missing_upto(words, limit, (k - 1) as nat);
        if !observed(words, limit, k as int) {
            let after = before.push(k as u32);
            if before.contains(id) {
                let i = choose|i: int| 0 <= i < before.len() && before[i] == id;
                assert(after[i] == id);
            }
            if id == k {
                assert(after[before.len() as int] == id);
            }
            if after.contains(id) {
                let j = choose|j: int| 0 <= j < after.len() && after[j] == id;
                if j < before.len() {
                    assert(before[j] == id);
                }
            }
        }
    }
}

/// Recording an id twice leaves the words exactly as recording it once.
pub proof fn lemma_record_idempotent(words: Seq<u64>, limit: u32, id: int)
    requires
        words.len() == word_count(limit),
    ensures
        recorded(recorded(words, limit, id), limit, id) == recorded(words, limit, id),
{
    if in_range(limit, id) {
        let w = words[word_of(id)];
        lemma_set_bits_commute(w, bit_of(id), bit_of(id));
        assert(recorded(recorded(words, limit, id), limit, id) =~= recorded(words, limit, id));
    }
}

/// Recording two ids gives the same words in either order.
pub proof fn lemma_record_commutes(words: Seq<u64>, limit: u32, a: int, b: int)
    requires
        words.len() == word_count(limit),
    ensures
        recorded(recorded(words, limit, a), limit, b) == recorded(recorded(words, limit, b), limit, a),
{
    if in_range(limit, a) && in_range(limit, b) {
        lemma_word_in_bounds(limit, a);
        lemma_word_in_bounds(limit, b);
        if word_of(a) == word_of(b) {
            lemma_set_bits_commute(words[word_of(a)], bit_of(a), bit_of(b));
        }
        assert(recorded(recorded(words, limit, a), limit, b) =~= recorded(
            recorded(words, limit, b),
            limit,
            a,
        ));
    }
}

/// An id of 0 or above the limit never changes the words.
pub proof fn lemma_out_of_range_ignored(words: Seq<u64>, limit: u32, id: int)
    requires
        id < 1 || id > limit,
    ensures
        recorded(words, limit, id) == words,
        observed_set(recorded(words, limit, id), limit) == observed_set(words, limit),
        !observed_set(recorded(words, limit, id), limit).contains(id),
{
}

} // verus!
