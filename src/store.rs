//! The samples admitted during one run, at most one per minute.

use vstd::prelude::*;
use crate::clock::ClockTime;

verus! {

/// One probe observation: the minute it was taken in and its latency.
#[derive(Clone, Copy, Debug, PartialEq, Eq, Structural)]
pub struct Time {
    /// The minute of the observation, whose `HH:MM` spelling is the
    /// sample's timestamp.
    pub real_time: ClockTime,
    /// Round-trip time in milliseconds.
    pub response_time: u64,
}

/// Whether some sample of `samples` was taken in minute `t`.
pub open spec fn has_minute(samples: Seq<Time>, t: ClockTime) -> bool {
    exists|i: int| 0 <= i < samples.len() && (#[trigger] samples[i]).real_time == t
}

/// No two samples share a minute.
pub open spec fn distinct_minutes(samples: Seq<Time>) -> bool {
    forall|i: int, j: int|
        0 <= i < j < samples.len() ==> (#[trigger] samples[i]).real_time != (#[trigger] samples[j]).real_time
}

/// The samples after offering `s`: the first sample of a minute is kept and
/// later ones of the same minute are dropped.
pub open spec fn record_spec(samples: Seq<Time>, s: Time) -> Seq<Time> {
    if has_minute(samples, s.real_time) {
        samples
    } else {
        samples.push(s)
    }
}

/// An insertion-ordered collection of samples keyed by minute.
pub struct SampleStore {
    samples: Vec<Time>,
}

impl View for SampleStore {
    type V = Seq<Time>;

    closed spec fn view(&self) -> Seq<Time> {
        self.samples@
    }
}

impl SampleStore {
    pub open spec fn wf(&self) -> bool {
        distinct_minutes(self@)
    }

    /// An empty store.
    pub fn new() -> (r: SampleStore)
        ensures
            r@ == Seq::<Time>::empty(),
            r.wf(),
    {
        SampleStore { samples: Vec::new() }
    }

    /// The number of stored samples.
    pub fn len(&self) -> (r: usize)
        ensures
            r == self@.len(),
    {
        self.samples.len()
    }

    /// Offers a sample; returns whether it was stored, which is exactly when
    /// no stored sample has its minute.
    pub fn record(&mut self, s: Time) -> (r: bool)
        requires
            old(self).wf(),
        ensures
            final(self).wf(),
            r == !has_minute(old(self)@, s.real_time),
            final(self)@ == record_spec(old(self)@, s),
    {
        let mut i: usize = 0;
        while i < self.samples.len()
            invariant
                0 <= i <= self.samples.len(),
                self.samples@ == old(self).samples@,
                self.wf(),
                forall|k: int| 0 <= k < i ==> (#[trigger] self.samples@[k]).real_time != s.real_time,
            decreases self.samples.len() - i,
        {
            if self.samples[i].real_time == s.real_time {
                return false;
            }
            i = i + 1;
        }
        self.samples.push(s);
        proof {
            assert(forall|k: int| 0 <= k < old(self)@.len() ==> (#[trigger] self@[k]) == old(self)@[k]);
        }
        true
    }

    /// The stored samples, in the order they were admitted.
    pub fn export(&self) -> (r: Vec<Time>)
        ensures
            r@ == self@,
    {
        let mut out: Vec<Time> = Vec::new();
        let mut i: usize = 0;
        while i < self.samples.len()
            invariant
                0 <= i <= self.samples.len(),
                out@ == self@.subrange(0, i as int),
            decreases self.samples.len() - i,
        {
            out.push(self.samples[i]);
            i = i + 1;
            assert(out@ =~= self@.subrange(0, i as int));
        }
        assert(out@ =~= self@);
        out
    }
}

/// Offering a sample whose minute is already stored leaves the store as it
/// was: of two samples with the same timestamp only the first is kept.
pub proof fn lemma_same_minute_keeps_first(samples: Seq<Time>, first: Time, second: Time)
    requires
        distinct_minutes(samples),
        !has_minute(samples, first.real_time),
        first.real_time == second.real_time,
    ensures
        record_spec(record_spec(samples, first), second) == samples.push(first),
        distinct_minutes(record_spec(record_spec(samples, first), second)),
        forall|i: int| 0 <= i < samples.len() + 1 && (#[trigger] samples.push(first)[i]).real_time == first.real_time
            ==> samples.push(first)[i] == first,
{
    let once = samples.push(first);
    assert(once[samples.len() as int].real_time == second.real_time);
    assert(has_minute(once, second.real_time));
    assert forall|i: int| 0 <= i < samples.len() + 1 && (#[trigger] once[i]).real_time == first.real_time
        implies once[i] == first by {
        if i < samples.len() {
            assert(samples[i] == once[i]);
        }
    }
}

/// Exporting twice with no admission in between gives the same sequence.
pub proof fn lemma_export_stable(store: SampleStore, first: Seq<Time>, second: Seq<Time>)
    requires
        first == store@,
        second == store@,
    ensures
        first == second,
{
}

} // verus!
