//! The bounded sample queue between the capture callback and the playback callback.
use vstd::prelude::*;
use std::collections::VecDeque;
use crate::pipeline::PipelineMetrics;

verus! {

/// The queue after appending `s` to `q` and dropping the oldest samples beyond `cap`.
pub open spec fn bounded_append<T>(q: Seq<T>, s: Seq<T>, cap: nat) -> Seq<T> {
    let all = q + s;
    if all.len() > cap {
        all.subrange(all.len() - cap, all.len() as int)
    } else {
        all
    }
}

/// Samples that appending `s` to `q` drops from a queue of capacity `cap`.
pub open spec fn dropped_by_append<T>(q: Seq<T>, s: Seq<T>, cap: nat) -> nat {
    if q.len() + s.len() > cap {
        (q.len() + s.len() - cap) as nat
    } else {
        0
    }
}

/// `a + b`, or `u64::MAX` when that does not fit.
pub open spec fn saturating_sum(a: u64, b: nat) -> u64 {
    if a + b > u64::MAX {
        u64::MAX
    } else {
        (a + b) as u64
    }
}

/// Appending to a queue that respects its capacity keeps the newest samples, oldest first:
/// the result is the tail of everything queued so far, as long as the capacity allows, and
/// every sample it leaves out is counted as dropped.
pub proof fn lemma_bounded_append_keeps_newest<T>(q: Seq<T>, s: Seq<T>, cap: nat)
    requires
        q.len() <= cap,
    ensures
        bounded_append(q, s, cap).len() == if q.len() + s.len() > cap {
            cap
        } else {
            q.len() + s.len()
        },
        bounded_append(q, s, cap) == (q + s).skip((q + s).len() - bounded_append(q, s, cap).len()),
        bounded_append(q, s, cap).len() + dropped_by_append(q, s, cap) == q.len() + s.len(),
        s.len() <= cap ==> bounded_append(q, s, cap).skip(bounded_append(q, s, cap).len() - s.len())
            == s,
{
    let all = q + s;
    let r = bounded_append(q, s, cap);
    assert(r =~= all.skip(all.len() - r.len()));
    if s.len() <= cap {
        assert(r.skip(r.len() - s.len()) =~= s);
    }
}

/// A FIFO of at most `capacity` samples that drops its oldest samples when full, and that
/// plays silence until `prebuffer_samples` samples have arrived (again after running dry).
#[derive(Debug)]
pub struct AudioSampleBuffer<T> {
    samples: VecDeque<T>,
    capacity: usize,
    prebuffer_samples: usize,
    underrun_sample_count: u64,
    dropped_sample_count: u64,
    is_primed: bool,
}

proof fn lemma_bounded_append_step<T>(q: Seq<T>, s: Seq<T>, i: int, cap: nat)
    requires
        cap >= 1,
        q.len() <= cap,
        0 <= i < s.len(),
    ensures
        ({
            let cur = bounded_append(q, s.take(i), cap);
            let next = bounded_append(q, s.take(i + 1), cap);
            &&& cur.len() <= cap
            &&& (cur.len() == cap ==> next == cur.drop_first().push(s[i]))
            &&& (cur.len() < cap ==> next == cur.push(s[i]))
            &&& dropped_by_append(q, s.take(i + 1), cap) == dropped_by_append(q, s.take(i), cap)
                + (if cur.len() == cap { 1nat } else { 0nat })
        }),
{
    let a = q + s.take(i);
    let b = q + s.take(i + 1);
    assert(b =~= a.push(s[i]));
    let cur = bounded_append(q, s.take(i), cap);
    let next = bounded_append(q, s.take(i + 1), cap);
    if a.len() >= cap {
        assert(cur =~= a.subrange(a.len() - cap, a.len() as int));
        assert(next =~= cur.drop_first().push(s[i]));
    } else {
        assert(cur == a);
        assert(next =~= cur.push(s[i]));
    }
}

impl<T: Copy> AudioSampleBuffer<T> {
    /// Samples queued, oldest first.
    pub closed spec fn spec_samples(&self) -> Seq<T> {
        self.samples@
    }

    pub closed spec fn spec_capacity(&self) -> nat {
        self.capacity as nat
    }

    pub closed spec fn spec_prebuffer(&self) -> nat {
        self.prebuffer_samples as nat
    }

    pub closed spec fn spec_underruns(&self) -> u64 {
        self.underrun_sample_count
    }

    pub closed spec fn spec_dropped(&self) -> u64 {
        self.dropped_sample_count
    }

    /// Whether playback takes samples from the queue (rather than playing silence).
    pub closed spec fn spec_is_primed(&self) -> bool {
        self.is_primed
    }

    /// The queue never holds more than its capacity, which is at least one, and the
    /// prebuffer never exceeds the capacity.
    pub closed spec fn wf(&self) -> bool {
        &&& 1 <= self.capacity
        &&& self.prebuffer_samples <= self.capacity
        &&& self.samples@.len() <= self.capacity
    }

    /// A buffer of `capacity` samples (at least one) that plays at once.
    pub fn new(capacity: usize) -> (r: Self)
        ensures
            r.wf(),
            r.spec_capacity() == if capacity >= 1 { capacity as nat } else { 1 },
            r.spec_prebuffer() == 0,
            r.spec_samples() == Seq::<T>::empty(),
            r.spec_underruns() == 0,
            r.spec_dropped() == 0,
            r.spec_is_primed(),
    {
        Self::with_prebuffer(capacity, 0)
    }

    /// A buffer of `capacity` samples (at least one) that waits for `prebuffer_samples`
    /// samples (at most the capacity) before it plays.
    pub fn with_prebuffer(capacity: usize, prebuffer_samples: usize) -> (r: Self)
        ensures
            r.wf(),
            r.spec_capacity() == if capacity >= 1 { capacity as nat } else { 1 },
            r.spec_prebuffer() == if prebuffer_samples <= r.spec_capacity() {
                prebuffer_samples as nat
            } else {
                r.spec_capacity()
            },
            r.spec_samples() == Seq::<T>::empty(),
            r.spec_underruns() == 0,
            r.spec_dropped() == 0,
            r.spec_is_primed() == (r.spec_prebuffer() == 0),
    {
        let capacity = if capacity >= 1 { capacity } else { 1 };
        let prebuffer_samples = if prebuffer_samples <= capacity { prebuffer_samples } else { capacity };
        AudioSampleBuffer {
            samples: VecDeque::new(),
            capacity,
            prebuffer_samples,
            underrun_sample_count: 0,
            dropped_sample_count: 0,
            is_primed: prebuffer_samples == 0,
        }
    }

    /// Appends samples, dropping the oldest ones beyond the capacity and counting them;
    /// playback starts once the prebuffer is filled.
    pub fn push_samples(&mut self, samples: &[T])
        requires
            old(self).wf(),
        ensures
            final(self).wf(),
            final(self).spec_capacity() == old(self).spec_capacity(),
            final(self).spec_prebuffer() == old(self).spec_prebuffer(),
            final(self).spec_underruns() == old(self).spec_underruns(),
            final(self).spec_samples() == bounded_append(
                old(self).spec_samples(),
                samples@,
                old(self).spec_capacity(),
            ),
            final(self).spec_dropped() == saturating_sum(
                old(self).spec_dropped(),
                dropped_by_append(old(self).spec_samples(), samples@, old(self).spec_capacity()),
            ),
            final(self).spec_is_primed() == (old(self).spec_is_primed()
                || final(self).spec_samples().len() >= old(self).spec_prebuffer()),
    {
        let ghost q = self.samples@;
        let ghost cap = self.capacity as nat;
        let ghost d0 = self.dropped_sample_count;
        let mut i: usize = 0;
        proof {
            assert(samples@.take(0) =~= Seq::<T>::empty());
            assert(q + samples@.take(0) =~= q);
        }
        while i < samples.len()
            invariant
                self.wf(),
                self.capacity == old(self).capacity,
                self.prebuffer_samples == old(self).prebuffer_samples,
                self.underrun_sample_count == old(self).underrun_sample_count,
                self.is_primed == old(self).is_primed,
                q == old(self).samples@,
                cap == self.capacity,
                q.len() <= cap,
                d0 == old(self).dropped_sample_count,
                i <= samples@.len(),
                self.samples@ == bounded_append(q, samples@.take(i as int), cap),
                self.dropped_sample_count == saturating_sum(
                    d0,
                    dropped_by_append(q, samples@.take(i as int), cap),
                ),
            decreases samples.len() - i,
        {
            proof {
                lemma_bounded_append_step(q, samples@, i as int, cap);
            }
            if self.samples.len() == self.capacity {
                let _ = self.samples.pop_front();
                self.dropped_sample_count = if self.dropped_sample_count < u64::MAX {
                    self.dropped_sample_count + 1
                } else {
                    u64::MAX
                };
            }
            self.samples.push_back(samples[i]);
            i += 1;
        }
        assert(samples@.take(samples.len() as int) =~= samples@);
        if self.samples.len() >= self.prebuffer_samples {
            self.is_primed = true;
        }
    }

    /// Fills `output` from the queue; plays `silence` while not primed, and for every sample
    /// the queue cannot give, which counts as an underrun and re-arms the prebuffer.
    pub fn pop_samples_or_zero(&mut self, output: &mut [T], silence: T)
        requires
            old(self).wf(),
        ensures
            final(self).wf(),
            final(self).spec_capacity() == old(self).spec_capacity(),
            final(self).spec_prebuffer() == old(self).spec_prebuffer(),
            final(self).spec_dropped() == old(self).spec_dropped(),
            final(output)@.len() == old(output)@.len(),
            !old(self).spec_is_primed() ==> final(output)@ == Seq::new(
                old(output)@.len(),
                |i: int| silence,
            ) && final(self).spec_samples() == old(self).spec_samples()
                && final(self).spec_underruns() == old(self).spec_underruns()
                && !final(self).spec_is_primed(),
            old(self).spec_is_primed() ==> ({
                let q = old(self).spec_samples();
                let n = old(output)@.len();
                let k = if n <= q.len() { n } else { q.len() };
                &&& final(output)@ == q.take(k as int) + Seq::new((n - k) as nat, |i: int| silence)
                &&& final(self).spec_samples() == q.skip(k as int)
                &&& final(self).spec_underruns() == saturating_sum(
                    old(self).spec_underruns(),
                    (n - k) as nat,
                )
                &&& final(self).spec_is_primed() == (n <= q.len() || old(self).spec_prebuffer()
                    == 0)
            }),
    {
        let n = output.len();
        if !self.is_primed {
            let mut i: usize = 0;
            while i < n
                invariant
                    n == output@.len(),
                    i <= n,
                    forall|j: int| 0 <= j < i ==> output@[j] == silence,
                decreases n - i,
            {
                output[i] = silence;
                i += 1;
            }
            assert(output@ =~= Seq::new(n as nat, |i: int| silence));
            return;
        }
        let ghost q = self.samples@;
        let ghost u0 = self.underrun_sample_count;
        let ghost k: int = if n <= q.len() { n as int } else { q.len() as int };
        let mut i: usize = 0;
        while i < n
            invariant
                self.wf(),
                self.capacity == old(self).capacity,
                self.prebuffer_samples == old(self).prebuffer_samples,
                self.dropped_sample_count == old(self).dropped_sample_count,
                q == old(self).samples@,
                u0 == old(self).underrun_sample_count,
                k == if n <= q.len() { n as int } else { q.len() as int },
                n == output@.len(),
                i <= n,
                i <= k ==> self.samples@ == q.skip(i as int) && self.underrun_sample_count == u0
                    && self.is_primed,
                i > k ==> self.samples@ == q.skip(k) && self.underrun_sample_count
                    == saturating_sum(u0, (i - k) as nat) && self.is_primed == (
                self.prebuffer_samples == 0),
                forall|j: int| 0 <= j < i && j < k ==> output@[j] == q[j],
                forall|j: int| k <= j < i ==> output@[j] == silence,
            decreases n - i,
        {
            match self.samples.pop_front() {
                Some(value) => {
                    proof {
                        assert(q.skip(i as int)[0] == q[i as int]);
                        assert(q.skip(i as int).drop_first() =~= q.skip(i + 1));
                    }
                    output[i] = value;
                },
                None => {
                    self.underrun_sample_count = if self.underrun_sample_count < u64::MAX {
                        self.underrun_sample_count + 1
                    } else {
                        u64::MAX
                    };
                    self.is_primed = self.prebuffer_samples == 0;
                    output[i] = silence;
                },
            }
            i += 1;
        }
        assert(output@ =~= q.take(k) + Seq::new((n - k) as nat, |i: int| silence));
    }

    /// Fill level and counters, as the UI shows them.
    pub fn metrics(&self) -> (r: PipelineMetrics)
        ensures
            r.buffered_samples == self.spec_samples().len(),
            r.capacity_samples == self.spec_capacity(),
            r.underrun_sample_count == self.spec_underruns(),
            r.dropped_sample_count == self.spec_dropped(),
    {
        PipelineMetrics::new(
            self.samples.len(),
            self.capacity,
            self.underrun_sample_count,
            self.dropped_sample_count,
        )
    }
}

} // verus!
