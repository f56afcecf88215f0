use vstd::prelude::*;

verus! {

/// The newest `cap` elements of `s`, oldest first; `s` itself when it is
/// no longer than `cap`.
pub open spec fn keep_last(s: Seq<u32>, cap: nat) -> Seq<u32> {
    if s.len() <= cap {
        s
    } else {
        s.subrange(s.len() - cap, s.len() as int)
    }
}

/// A run of `n` silent samples (the bit pattern of `+0.0`).
pub open spec fn silence(n: nat) -> Seq<u32> {
    Seq::new(n, |i: int| 0u32)
}

/// A bounded, ordered accumulation of samples. Once it holds `capacity`
/// samples, each new sample evicts the oldest one.
pub struct SampleRing {
    slots: Vec<u32>,
    head: usize,
    capacity: usize,
}

impl View for SampleRing {
    type V = Seq<u32>;

    /// The samples, oldest first.
    closed spec fn view(&self) -> Seq<u32> {
        self.slots@.subrange(self.head as int, self.slots@.len() as int) + self.slots@.subrange(
            0,
            self.head as int,
        )
    }
}

impl SampleRing {
    /// The slot layout is consistent: at most `capacity` slots, and the
    /// rotation point is only moved once every slot is in use.
    pub closed spec fn wf(&self) -> bool {
        &&& self.slots@.len() <= self.capacity
        &&& self.head == 0 || self.head < self.slots@.len()
        &&& self.slots@.len() < self.capacity ==> self.head == 0
    }

    /// The most samples the ring holds at once.
    pub closed spec fn spec_capacity(&self) -> nat {
        self.capacity as nat
    }

    proof fn lemma_len(&self)
        requires
            self.wf(),
        ensures
            self@.len() == self.slots@.len(),
            self@.len() <= self.spec_capacity(),
    {
    }

    /// An empty ring that keeps at most `capacity` samples.
    pub fn new(capacity: usize) -> (r: SampleRing)
        ensures
            r.wf(),
            r@ == Seq::<u32>::empty(),
            r.spec_capacity() == capacity,
    {
        let r = SampleRing { slots: Vec::new(), head: 0, capacity };
        assert(r@ =~= Seq::<u32>::empty());
        r
    }

    pub fn capacity(&self) -> (r: usize)
        ensures
            r == self.spec_capacity(),
    {
        self.capacity
    }

    pub fn len(&self) -> (r: usize)
        requires
            self.wf(),
        ensures
            r == self@.len(),
            r <= self.spec_capacity(),
    {
        proof {
            self.lemma_len();
        }
        self.slots.len()
    }

    pub fn is_empty(&self) -> (r: bool)
        requires
            self.wf(),
        ensures
            r == (self@.len() == 0),
    {
        self.len() == 0
    }

    /// The sample at position `i`, counted from the oldest.
    pub fn sample_at(&self, i: usize) -> (r: u32)
        requires
            self.wf(),
            i < self@.len(),
        ensures
            r == self@[i as int],
    {
        proof {
            self.lemma_len();
        }
        let n = self.slots.len();
        if i < n - self.head {
            self.slots[self.head + i]
        } else {
            self.slots[i - (n - self.head)]
        }
    }

    /// Appends one sample, evicting the oldest one when the ring is full.
    fn write_one(&mut self, x: u32)
        requires
            old(self).wf(),
        ensures
            final(self).wf(),
            final(self)@ == keep_last(old(self)@.push(x), old(self).spec_capacity()),
            final(self).spec_capacity() == old(self).spec_capacity(),
    {
        proof {
            self.lemma_len();
        }
        let ghost before = self@;
        if self.capacity == 0 {
            assert(keep_last(before.push(x), 0) =~= before);
            return;
        }
        let n = self.slots.len();
        if n < self.capacity {
            self.slots.push(x);
            assert(self@ =~= before.push(x));
        } else {
            let h = self.head;
            self.slots.set(h, x);
            if h + 1 == n {
                self.head = 0;
            } else {
                self.head = h + 1;
            }
            assert(self@ =~= before.push(x).subrange(1, n + 1));
        }
    }

    /// Appends `samples` in order; when the ring overflows, the oldest
    /// samples are evicted first, so it keeps the newest `capacity` ones.
    pub fn write(&mut self, samples: &[u32])
        requires
            old(self).wf(),
        ensures
            final(self).wf(),
            final(self)@ == keep_last(old(self)@ + samples@, old(self).spec_capacity()),
            final(self)@.len() <= final(self).spec_capacity(),
            final(self).spec_capacity() == old(self).spec_capacity(),
    {
        let ghost cap = self.spec_capacity();
        let ghost start = self@;
        proof {
            self.lemma_len();
            assert(start + samples@.subrange(0, 0) =~= start);
        }
        let mut i: usize = 0;
        while i < samples.len()
            invariant
                i <= samples@.len(),
                self.wf(),
                self.spec_capacity() == cap,
                self@ == keep_last(start + samples@.subrange(0, i as int), cap),
            decreases samples@.len() - i,
        {
            let ghost prefix = start + samples@.subrange(0, i as int);
            self.write_one(samples[i]);
            proof {
                lemma_keep_last_append(prefix, seq![samples@[i as int]], cap);
                assert(prefix + seq![samples@[i as int]] =~= start + samples@.subrange(
                    0,
                    i + 1,
                ));
                assert(keep_last(prefix, cap).push(samples@[i as int]) =~= keep_last(prefix, cap)
                    + seq![samples@[i as int]]);
            }
            i = i + 1;
        }
        proof {
            assert(samples@.subrange(0, samples@.len() as int) =~= samples@);
            self.lemma_len();
        }
    }

    /// A copy of the samples, oldest first.
    pub fn read_snapshot(&self) -> (r: Vec<u32>)
        requires
            self.wf(),
        ensures
            r@ == self@,
    {
        let n = self.len();
        let mut out: Vec<u32> = Vec::with_capacity(n);
        let mut i: usize = 0;
        while i < n
            invariant
                self.wf(),
                n == self@.len(),
                i <= n,
                out@ == self@.subrange(0, i as int),
            decreases n - i,
        {
            out.push(self.sample_at(i));
            assert(out@ =~= self@.subrange(0, i + 1));
            i = i + 1;
        }
        assert(out@ =~= self@);
        out
    }

    /// Sets every held sample to silence, keeping the length and capacity.
    pub fn clear(&mut self)
        requires
            old(self).wf(),
        ensures
            final(self).wf(),
            final(self)@ == silence(old(self)@.len()),
            final(self).spec_capacity() == old(self).spec_capacity(),
    {
        proof {
            self.lemma_len();
        }
        let n = self.slots.len();
        let mut i: usize = 0;
        while i < n
            invariant
                n == self.slots@.len(),
                n <= self.capacity,
                self.capacity == old(self).capacity,
                i <= n,
                forall|j: int| 0 <= j < i ==> self.slots@[j] == 0u32,
            decreases n - i,
        {
            self.slots.set(i, 0);
            i = i + 1;
        }
        self.head = 0;
        assert(self@ =~= silence(n as nat));
    }
}

/// Keeping the newest `cap` samples before appending more, and again
/// after, keeps the same samples as doing it only once at the end.
pub proof fn lemma_keep_last_append(s: Seq<u32>, t: Seq<u32>, cap: nat)
    ensures
        keep_last(keep_last(s, cap) + t, cap) == keep_last(s + t, cap),
{
    let w = s + t;
    let k: int = if s.len() <= cap { 0 } else { s.len() - cap };
    assert(keep_last(s, cap) + t =~= w.subrange(k, w.len() as int));
    let u = w.subrange(k, w.len() as int);
    if u.len() <= cap {
        assert(keep_last(w, cap) =~= u);
    } else {
        assert(keep_last(u, cap) =~= keep_last(w, cap));
    }
}

/// The contents of a ring that held `start` after writing each chunk of
/// `chunks` in turn.
pub open spec fn after_writes(start: Seq<u32>, chunks: Seq<Seq<u32>>, cap: nat) -> Seq<u32>
    decreases chunks.len(),
{
    if chunks.len() == 0 {
        start
    } else {
        after_writes(keep_last(start + chunks[0], cap), chunks.drop_first(), cap)
    }
}

/// However many chunks are written, a ring never holds more samples than
/// its capacity.
pub proof fn lemma_writes_within_capacity(start: Seq<u32>, chunks: Seq<Seq<u32>>, cap: nat)
    requires
        start.len() <= cap,
    ensures
        after_writes(start, chunks, cap).len() <= cap,
    decreases chunks.len(),
{
    if chunks.len() > 0 {
        lemma_writes_within_capacity(keep_last(start + chunks[0], cap), chunks.drop_first(), cap);
    }
}

/// Writing chunks one after another keeps exactly the newest `cap` of all
/// samples written, in the order they were written: eviction is first in,
/// first out.
pub proof fn lemma_writes_keep_newest(start: Seq<u32>, chunks: Seq<Seq<u32>>, cap: nat)
    requires
        start.len() <= cap,
    ensures
        after_writes(start, chunks, cap) == keep_last(start + chunks.flatten(), cap),
    decreases chunks.len(),
{
    if chunks.len() == 0 {
        assert(start + chunks.flatten() =~= start);
    } else {
        let next = keep_last(start + chunks[0], cap);
        let rest = chunks.drop_first();
        lemma_writes_keep_newest(next, rest, cap);
        lemma_keep_last_append(start + chunks[0], rest.flatten(), cap);
        assert(start + chunks[0] + rest.flatten() =~= start + chunks.flatten());
    }
}

/// After a clear, a snapshot of a ring that held `before` is silence of
/// the same length.
pub proof fn lemma_clear_reads_silence(before: Seq<u32>)
    ensures
        silence(before.len()).len() == before.len(),
        forall|i: int| 0 <= i < before.len() ==> silence(before.len())[i] == 0u32,
{
}

} // verus!
