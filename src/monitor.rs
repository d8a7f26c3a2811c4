//! The monitoring run: one tick reads the clock, stops at the stop time,
//! and otherwise probes the site and records a sample in sampling minutes.
//! The caller performs the clock reading, the probe, the sleep between ticks
//! and the writing of the sample file; this state machine makes every decision.

use vstd::prelude::*;
use crate::clock::{ClockTime, StopTime, stop_reached};
use crate::store::{SampleStore, Time, record_spec, distinct_minutes, has_minute};

verus! {

/// Where a run stands.
#[derive(Clone, Copy, Debug, PartialEq, Eq, Structural)]
pub enum RunState {
    Running,
    /// The clock reached the stop time with every probe successful.
    Succeeded,
    /// A probe failed before the stop time.
    Failed,
}

/// What one probe of the site found.
#[derive(Clone, Copy, Debug, PartialEq, Eq, Structural)]
pub struct ProbeReport {
    /// The site answered with a 2xx or 3xx status.
    pub status_ok: bool,
    /// Wall-clock time from the start of the tick to the answer.
    pub elapsed_nanos: u64,
}

/// Whether an HTTP status counts as the site being up (2xx or 3xx).
pub open spec fn status_ok_spec(code: u16) -> bool {
    200 <= code && code < 400
}

/// Whether an HTTP status counts as the site being up (2xx or 3xx).
pub fn status_is_ok(code: u16) -> (r: bool)
    ensures
        r == status_ok_spec(code),
{
    200 <= code && code < 400
}

impl ProbeReport {
    /// The report of a probe that got `status`, or no answer at all (`None`:
    /// a transport failure, which counts as the site being down).
    pub fn from_status(status: Option<u16>, elapsed_nanos: u64) -> (r: ProbeReport)
        ensures
            r.status_ok == (status matches Some(c) && status_ok_spec(c)),
            r.elapsed_nanos == elapsed_nanos,
    {
        let status_ok = match status {
            Some(c) => status_is_ok(c),
            None => false,
        };
        ProbeReport { status_ok, elapsed_nanos }
    }
}

/// Nanoseconds rounded to the nearest millisecond, halves up.
pub open spec fn latency_ms_spec(nanos: nat) -> nat {
    nanos / 1_000_000 + if nanos % 1_000_000 >= 500_000 { 1nat } else { 0nat }
}

/// Nanoseconds rounded to the nearest millisecond, halves up.
pub fn latency_ms(elapsed_nanos: u64) -> (r: u64)
    ensures
        r == latency_ms_spec(elapsed_nanos as nat),
{
    let whole = elapsed_nanos / 1_000_000;
    if elapsed_nanos % 1_000_000 >= 500_000 {
        whole + 1
    } else {
        whole
    }
}

/// Whether samples are taken in the minute of `t`: minutes whose last digit
/// is 0 or 5, twelve an hour.
pub open spec fn sampling_minute(t: ClockTime) -> bool {
    t.minute % 10 == 0 || t.minute % 10 == 5
}

/// The sample that a successful probe in minute `now` gives.
pub open spec fn sample_of(now: ClockTime, probe: ProbeReport) -> Time {
    Time { real_time: now, response_time: latency_ms_spec(probe.elapsed_nanos as nat) as u64 }
}

/// The abstract state of a run.
pub struct MonitorView {
    pub stop: StopTime,
    pub samples: Seq<Time>,
    pub state: RunState,
}

/// A new run towards `stop`.
pub open spec fn start(stop: StopTime) -> MonitorView {
    MonitorView { stop, samples: Seq::empty(), state: RunState::Running }
}

/// The samples that reading the clock at `now` hands to the sample file:
/// all of them, when a running run reaches its stop time.
pub open spec fn persisted_at(m: MonitorView, now: ClockTime) -> Option<Seq<Time>> {
    if m.state == RunState::Running && stop_reached(m.stop, now) {
        Some(m.samples)
    } else {
        None
    }
}

/// The run after reading the clock at `now`.
pub open spec fn clock_step(m: MonitorView, now: ClockTime) -> MonitorView {
    if m.state == RunState::Running && stop_reached(m.stop, now) {
        MonitorView { state: RunState::Succeeded, ..m }
    } else {
        m
    }
}

/// The run after a probe in minute `now`.
pub open spec fn probe_step(m: MonitorView, now: ClockTime, probe: ProbeReport) -> MonitorView {
    if m.state != RunState::Running {
        m
    } else if !probe.status_ok {
        MonitorView { state: RunState::Failed, ..m }
    } else if sampling_minute(now) {
        MonitorView { samples: record_spec(m.samples, sample_of(now, probe)), ..m }
    } else {
        m
    }
}

/// One tick: the clock reading, and what the probe would find if one is made.
pub struct Tick {
    pub now: ClockTime,
    pub probe: ProbeReport,
}

/// The run after one tick: the probe is made only if the clock reading
/// leaves the run running.
pub open spec fn tick_step(m: MonitorView, t: Tick) -> MonitorView {
    let after_clock = clock_step(m, t.now);
    if after_clock.state == RunState::Running {
        probe_step(after_clock, t.now, t.probe)
    } else {
        after_clock
    }
}

/// The run after a sequence of ticks.
pub open spec fn run(m: MonitorView, ticks: Seq<Tick>) -> MonitorView
    decreases ticks.len(),
{
    if ticks.len() == 0 {
        m
    } else {
        tick_step(run(m, ticks.drop_last()), ticks.last())
    }
}

/// The samples that the ticks offer, first one per minute, in tick order.
pub open spec fn sampled(ticks: Seq<Tick>) -> Seq<Time>
    decreases ticks.len(),
{
    if ticks.len() == 0 {
        Seq::empty()
    } else {
        let t = ticks.last();
        if sampling_minute(t.now) {
            record_spec(sampled(ticks.drop_last()), sample_of(t.now, t.probe))
        } else {
            sampled(ticks.drop_last())
        }
    }
}

/// What a caller does after a clock reading.
pub enum TickDecision {
    /// Probe the site, then report with `on_probe`.
    Probe,
    /// The stop time is reached: write these samples to the sample file;
    /// the run has succeeded.
    Persist(Vec<Time>),
    /// The run had already ended; nothing is to be done.
    Halted,
}

/// The state of one monitoring run.
pub struct Monitor {
    stop: StopTime,
    store: SampleStore,
    state: RunState,
}

impl View for Monitor {
    type V = MonitorView;

    closed spec fn view(&self) -> MonitorView {
        MonitorView { stop: self.stop, samples: self.store@, state: self.state }
    }
}

impl Monitor {
    pub closed spec fn wf(&self) -> bool {
        self.store.wf()
    }

    /// A run that stops at `stop`, with no samples yet.
    pub fn new(stop: StopTime) -> (r: Monitor)
        ensures
            r@ == start(stop),
            r.wf(),
    {
        Monitor { stop, store: SampleStore::new(), state: RunState::Running }
    }

    /// Where the run stands.
    pub fn state(&self) -> (r: RunState)
        ensures
            r == self@.state,
    {
        self.state
    }

    /// The time of day the run stops at.
    pub fn stop(&self) -> (r: StopTime)
        ensures
            r == self@.stop,
    {
        self.stop
    }

    /// The samples recorded so far, in the order they were recorded.
    pub fn samples(&self) -> (r: Vec<Time>)
        ensures
            r@ == self@.samples,
    {
        self.store.export()
    }

    /// Takes the clock reading of a new tick. At the stop time the run
    /// succeeds and hands over its samples for the sample file; otherwise a
    /// running run asks for a probe.
    pub fn on_clock(&mut self, now: ClockTime) -> (d: TickDecision)
        requires
            old(self).wf(),
        ensures
            final(self).wf(),
            final(self)@ == clock_step(old(self)@, now),
            match d {
                TickDecision::Probe => old(self)@.state == RunState::Running && !stop_reached(old(self)@.stop, now),
                TickDecision::Persist(v) => persisted_at(old(self)@, now) == Some(v@),
                TickDecision::Halted => old(self)@.state != RunState::Running,
            },
    {
        if self.state != RunState::Running {
            TickDecision::Halted
        } else if self.stop.reached(now) {
            self.state = RunState::Succeeded;
            TickDecision::Persist(self.store.export())
        } else {
            TickDecision::Probe
        }
    }

    /// Takes the result of the probe made in minute `now`. A failed probe
    /// ends the run as failed; a successful one in a sampling minute offers a
    /// sample. Returns whether the run is still running.
    pub fn on_probe(&mut self, now: ClockTime, probe: ProbeReport) -> (r: bool)
        requires
            old(self).wf(),
        ensures
            final(self).wf(),
            final(self)@ == probe_step(old(self)@, now, probe),
            r == (final(self)@.state == RunState::Running),
    {
        if self.state != RunState::Running {
            return false;
        }
        if !probe.status_ok {
            self.state = RunState::Failed;
            return false;
        }
        if now.minute % 10 == 0 || now.minute % 10 == 5 {
            let sample = Time { real_time: now, response_time: latency_ms(probe.elapsed_nanos) };
            self.store.record(sample);
        }
        true
    }
}

/// Whether every tick of `ticks` reads a clock short of the stop time and
/// finds the site up.
pub open spec fn all_up_before_stop(stop: StopTime, ticks: Seq<Tick>) -> bool {
    forall|i: int| 0 <= i < ticks.len() ==> !stop_reached(stop, (#[trigger] ticks[i]).now) && ticks[i].probe.status_ok
}

/// A run that never reaches its stop time and never sees a failed probe is
/// still running, and holds exactly the samples that its ticks offered.
pub proof fn lemma_running_while_up(stop: StopTime, ticks: Seq<Tick>)
    requires
        all_up_before_stop(stop, ticks),
    ensures
        run(start(stop), ticks).state == RunState::Running,
        run(start(stop), ticks).stop == stop,
        run(start(stop), ticks).samples == sampled(ticks),
    decreases ticks.len(),
{
    if ticks.len() > 0 {
        let prefix = ticks.drop_last();
        assert forall|i: int| 0 <= i < prefix.len() implies
            !stop_reached(stop, (#[trigger] prefix[i]).now) && prefix[i].probe.status_ok by {
            assert(prefix[i] == ticks[i]);
        }
        lemma_running_while_up(stop, prefix);
        assert(ticks.last() == ticks[ticks.len() - 1]);
    }
}

/// An ended run stays as it is, whatever ticks follow.
pub proof fn lemma_ended_run_stays(m: MonitorView, ticks: Seq<Tick>)
    requires
        m.state != RunState::Running,
    ensures
        run(m, ticks) == m,
    decreases ticks.len(),
{
    if ticks.len() > 0 {
        lemma_ended_run_stays(m, ticks.drop_last());
    }
}

/// Running the first `j + 1` ticks is running the first `j`, then tick `j`.
pub proof fn lemma_run_prefix_step(m: MonitorView, ticks: Seq<Tick>, j: int)
    requires
        0 <= j < ticks.len(),
    ensures
        run(m, ticks.subrange(0, j + 1)) == tick_step(run(m, ticks.subrange(0, j)), ticks[j]),
{
    assert(ticks.subrange(0, j + 1).drop_last() =~= ticks.subrange(0, j));
}

/// The samples offered never share a minute.
pub proof fn lemma_sampled_distinct(ticks: Seq<Tick>)
    ensures
        distinct_minutes(sampled(ticks)),
    decreases ticks.len(),
{
    if ticks.len() > 0 {
        lemma_sampled_distinct(ticks.drop_last());
        let prev = sampled(ticks.drop_last());
        let t = ticks.last();
        if sampling_minute(t.now) {
            let s = sample_of(t.now, t.probe);
            if !has_minute(prev, s.real_time) {
                let next = prev.push(s);
                assert forall|i: int, j: int| 0 <= i < j < next.len() implies
                    (#[trigger] next[i]).real_time != (#[trigger] next[j]).real_time by {
                    if j == prev.len() {
                        assert(prev[i] == next[i]);
                    } else {
                        assert(prev[i] == next[i] && prev[j] == next[j]);
                    }
                }
            }
        }
    }
}

/// Every probe up before the stop time: the tick that reads the stop time
/// ends the run as succeeded, and hands to the sample file exactly the
/// samples that the earlier ticks offered, one per minute, in tick order.
pub proof fn lemma_up_until_stop_succeeds(stop: StopTime, ticks: Seq<Tick>)
    requires
        ticks.len() > 0,
        all_up_before_stop(stop, ticks.drop_last()),
        stop_reached(stop, ticks.last().now),
    ensures
        run(start(stop), ticks).state == RunState::Succeeded,
        run(start(stop), ticks).samples == sampled(ticks.drop_last()),
        persisted_at(run(start(stop), ticks.drop_last()), ticks.last().now) == Some(sampled(ticks.drop_last())),
        distinct_minutes(sampled(ticks.drop_last())),
        forall|j: int| 0 <= j < ticks.len() - 1
            ==> persisted_at(#[trigger] run(start(stop), ticks.subrange(0, j)), ticks[j].now) is None,
{
    let before = ticks.drop_last();
    lemma_running_while_up(stop, before);
    lemma_sampled_distinct(before);
    assert forall|j: int| 0 <= j < ticks.len() - 1
        implies persisted_at(#[trigger] run(start(stop), ticks.subrange(0, j)), ticks[j].now) is None by {
        let prefix = ticks.subrange(0, j);
        assert forall|i: int| 0 <= i < prefix.len() implies
            !stop_reached(stop, (#[trigger] prefix[i]).now) && prefix[i].probe.status_ok by {
            assert(prefix[i] == before[i]);
        }
        lemma_running_while_up(stop, prefix);
        assert(ticks[j] == before[j]);
    }
}

/// A failed probe before the stop time ends the run as failed on that tick;
/// the run never hands samples to the sample file, then or later.
pub proof fn lemma_failed_probe_fails_run(stop: StopTime, ticks: Seq<Tick>, k: int)
    requires
        0 <= k < ticks.len(),
        all_up_before_stop(stop, ticks.subrange(0, k)),
        !stop_reached(stop, ticks[k].now),
        !ticks[k].probe.status_ok,
    ensures
        run(start(stop), ticks.subrange(0, k)).state == RunState::Running,
        run(start(stop), ticks.subrange(0, k + 1)).state == RunState::Failed,
        forall|j: int| k < j <= ticks.len() ==> #[trigger] run(start(stop), ticks.subrange(0, j))
            == run(start(stop), ticks.subrange(0, k + 1)),
        forall|j: int| 0 <= j < ticks.len()
            ==> persisted_at(#[trigger] run(start(stop), ticks.subrange(0, j)), ticks[j].now) is None,
{
    let m0 = start(stop);
    let before = ticks.subrange(0, k);
    lemma_running_while_up(stop, before);
    lemma_run_prefix_step(m0, ticks, k);
    let failed = run(m0, ticks.subrange(0, k + 1));
    assert forall|j: int| k < j <= ticks.len() implies #[trigger] run(m0, ticks.subrange(0, j)) == failed by {
        let rest = ticks.subrange(k + 1, j);
        lemma_ended_run_stays(failed, rest);
        lemma_run_concat(m0, ticks.subrange(0, k + 1), rest);
        assert(ticks.subrange(0, k + 1) + rest =~= ticks.subrange(0, j));
    }
    assert forall|j: int| 0 <= j < ticks.len()
        implies persisted_at(#[trigger] run(m0, ticks.subrange(0, j)), ticks[j].now) is None by {
        if j <= k {
            let prefix = ticks.subrange(0, j);
            assert forall|i: int| 0 <= i < prefix.len() implies
                !stop_reached(stop, (#[trigger] prefix[i]).now) && prefix[i].probe.status_ok by {
                assert(prefix[i] == before[i]);
            }
            lemma_running_while_up(stop, prefix);
            if j < k {
                assert(ticks[j] == before[j]);
            }
        } else {
            assert(run(m0, ticks.subrange(0, j)) == failed);
        }
    }
}

/// Running two sequences of ticks one after the other is running them joined.
pub proof fn lemma_run_concat(m: MonitorView, first: Seq<Tick>, second: Seq<Tick>)
    ensures
        run(m, first + second) == run(run(m, first), second),
    decreases second.len(),
{
    if second.len() == 0 {
        assert(first + second =~= first);
    } else {
        lemma_run_concat(m, first, second.drop_last());
        assert((first + second).drop_last() =~= first + second.drop_last());
    }
}

/// Every probe up, but no tick before the stop time in a sampling minute:
/// the run succeeds and hands an empty sample list to the sample file.
pub proof fn lemma_no_sampling_minute_persists_nothing(stop: StopTime, ticks: Seq<Tick>)
    requires
        ticks.len() > 0,
        all_up_before_stop(stop, ticks.drop_last()),
        stop_reached(stop, ticks.last().now),
        forall|i: int| 0 <= i < ticks.len() - 1 ==> !sampling_minute(#[trigger] ticks[i].now),
    ensures
        run(start(stop), ticks).state == RunState::Succeeded,
        persisted_at(run(start(stop), ticks.drop_last()), ticks.last().now) == Some(Seq::<Time>::empty()),
{
    lemma_up_until_stop_succeeds(stop, ticks);
    lemma_sampled_none(ticks.drop_last());
}

/// Ticks that are all outside sampling minutes offer no sample.
proof fn lemma_sampled_none(ticks: Seq<Tick>)
    requires
        forall|i: int| 0 <= i < ticks.len() ==> !sampling_minute(#[trigger] ticks[i].now),
    ensures
        sampled(ticks) == Seq::<Time>::empty(),
    decreases ticks.len(),
{
    if ticks.len() > 0 {
        let prefix = ticks.drop_last();
        assert forall|i: int| 0 <= i < prefix.len() implies !sampling_minute(#[trigger] prefix[i].now) by {
            assert(prefix[i] == ticks[i]);
        }
        lemma_sampled_none(prefix);
        assert(ticks.last() == ticks[ticks.len() - 1]);
    }
}

/// No tick reads minute `t`: no sample of minute `t` is offered.
proof fn lemma_no_tick_no_sample(ticks: Seq<Tick>, t: ClockTime)
    requires
        forall|m: int| 0 <= m < ticks.len() ==> (#[trigger] ticks[m]).now != t,
    ensures
        !has_minute(sampled(ticks), t),
    decreases ticks.len(),
{
    if ticks.len() > 0 {
        let prefix = ticks.drop_last();
        assert forall|m: int| 0 <= m < prefix.len() implies (#[trigger] prefix[m]).now != t by {
            assert(prefix[m] == ticks[m]);
        }
        lemma_no_tick_no_sample(prefix, t);
        let prev = sampled(prefix);
        let last = ticks.last();
        assert(last == ticks[ticks.len() - 1]);
        if sampling_minute(last.now) && !has_minute(prev, last.now) {
            let next = prev.push(sample_of(last.now, last.probe));
            assert forall|k: int| 0 <= k < next.len() implies (#[trigger] next[k]).real_time != t by {
                if k < prev.len() {
                    assert(next[k] == prev[k]);
                }
            }
        }
    }
}

/// The first tick of a sampling minute gives the one sample of that minute
/// that the ticks offer: later ticks of the same minute are dropped.
proof fn lemma_first_of_minute_kept(ticks: Seq<Tick>, i: int)
    requires
        0 <= i < ticks.len(),
        sampling_minute(ticks[i].now),
        forall|m: int| 0 <= m < i ==> (#[trigger] ticks[m]).now != ticks[i].now,
    ensures
        has_minute(sampled(ticks), ticks[i].now),
        forall|k: int| 0 <= k < sampled(ticks).len() && (#[trigger] sampled(ticks)[k]).real_time == ticks[i].now
            ==> sampled(ticks)[k] == sample_of(ticks[i].now, ticks[i].probe),
    decreases ticks.len(),
{
    let t = ticks[i].now;
    let first = sample_of(t, ticks[i].probe);
    let prefix = ticks.drop_last();
    let prev = sampled(prefix);
    let last = ticks.last();
    assert(last == ticks[ticks.len() - 1]);
    if i == ticks.len() - 1 {
        assert forall|m: int| 0 <= m < prefix.len() implies (#[trigger] prefix[m]).now != t by {
            assert(prefix[m] == ticks[m]);
        }
        lemma_no_tick_no_sample(prefix, t);
        let next = prev.push(first);
        assert(sampled(ticks) == next);
        assert(next[prev.len() as int].real_time == t);
        assert forall|k: int| 0 <= k < next.len() && (#[trigger] next[k]).real_time == t implies next[k] == first by {
            if k < prev.len() {
                assert(next[k] == prev[k]);
            }
        }
    } else {
        assert forall|m: int| 0 <= m < i implies (#[trigger] prefix[m]).now != prefix[i].now by {
            assert(prefix[m] == ticks[m]);
        }
        lemma_first_of_minute_kept(prefix, i);
        if sampling_minute(last.now) && !has_minute(prev, last.now) {
            let next = prev.push(sample_of(last.now, last.probe));
            assert(last.now != t);
            let w = choose|k: int| 0 <= k < prev.len() && (#[trigger] prev[k]).real_time == t;
            assert(next[w] == prev[w]);
            assert forall|k: int| 0 <= k < next.len() && (#[trigger] next[k]).real_time == t implies next[k] == first by {
                if k < prev.len() {
                    assert(next[k] == prev[k]);
                }
            }
        }
    }
}

/// Every probe up before the stop time: of the ticks that read one sampling
/// minute, the first gives the one sample of that minute in the sample file,
/// with that tick's latency.
pub proof fn lemma_first_sample_of_minute_wins(stop: StopTime, ticks: Seq<Tick>, i: int)
    requires
        ticks.len() > 0,
        all_up_before_stop(stop, ticks.drop_last()),
        stop_reached(stop, ticks.last().now),
        0 <= i < ticks.len() - 1,
        sampling_minute(ticks[i].now),
        forall|m: int| 0 <= m < i ==> (#[trigger] ticks[m]).now != ticks[i].now,
    ensures
        persisted_at(run(start(stop), ticks.drop_last()), ticks.last().now) == Some(sampled(ticks.drop_last())),
        has_minute(sampled(ticks.drop_last()), ticks[i].now),
        forall|k: int| 0 <= k < sampled(ticks.drop_last()).len()
            && (#[trigger] sampled(ticks.drop_last())[k]).real_time == ticks[i].now
            ==> sampled(ticks.drop_last())[k] == sample_of(ticks[i].now, ticks[i].probe),
        forall|k1: int, k2: int| 0 <= k1 < sampled(ticks.drop_last()).len() && 0 <= k2 < sampled(ticks.drop_last()).len()
            && (#[trigger] sampled(ticks.drop_last())[k1]).real_time == ticks[i].now
            && (#[trigger] sampled(ticks.drop_last())[k2]).real_time == ticks[i].now ==> k1 == k2,
{
    let before = ticks.drop_last();
    lemma_up_until_stop_succeeds(stop, ticks);
    assert(before[i] == ticks[i]);
    assert forall|m: int| 0 <= m < i implies (#[trigger] before[m]).now != before[i].now by {
        assert(before[m] == ticks[m]);
    }
    lemma_first_of_minute_kept(before, i);
    let sv = sampled(before);
    assert forall|k1: int, k2: int| 0 <= k1 < sv.len() && 0 <= k2 < sv.len()
        && (#[trigger] sv[k1]).real_time == ticks[i].now && (#[trigger] sv[k2]).real_time == ticks[i].now
        implies k1 == k2 by {
        if k1 < k2 {
            assert(sv[k1].real_time != sv[k2].real_time);
        } else if k2 < k1 {
            assert(sv[k2].real_time != sv[k1].real_time);
        }
    }
}

} // verus!
