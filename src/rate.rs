use vstd::prelude::*;
use std::collections::VecDeque;

verus! {

/// Most samples a window keeps.
pub const FRAME_HISTORY: usize = 60;

/// Thousandths of a hertz in one sample per nanosecond.
pub const MILLIHERTZ_PER_PER_NANO: u64 = 1_000_000_000_000;

/// Times are non-decreasing along the window.
pub open spec fn sorted(w: Seq<u64>) -> bool {
    forall|i: int, j: int| 0 <= i <= j < w.len() ==> w[i] <= w[j]
}

/// The window after one sample at `now`: appended, and the oldest dropped beyond capacity.
pub open spec fn record_spec(w: Seq<u64>, now: u64) -> Seq<u64> {
    if w.len() >= 60 { w.push(now).drop_first() } else { w.push(now) }
}

/// The window after recording every time of `ts` in order, starting empty.
pub open spec fn window_after(ts: Seq<u64>) -> Seq<u64>
    decreases ts.len(),
{
    if ts.len() == 0 {
        Seq::empty()
    } else {
        record_spec(window_after(ts.drop_last()), ts.last())
    }
}

/// Samples per second over the window, in thousandths of a hertz, rounded down:
/// intervals divided by the span from oldest to newest; zero with fewer than two samples
/// or a span of zero.
pub open spec fn rate_spec(w: Seq<u64>) -> int {
    if w.len() < 2 || w.last() <= w[0] {
        0
    } else {
        ((w.len() - 1) * 1_000_000_000_000int) / ((w.last() - w[0]) as int)
    }
}

/// A bounded window of sample times, in nanoseconds of a monotonic clock.
pub struct FpsCounter {
    pub times: VecDeque<u64>,
}

impl FpsCounter {
    pub open spec fn wf(&self) -> bool {
        &&& self.times@.len() <= 60
        &&& sorted(self.times@)
    }

    /// An empty window.
    pub fn new() -> (r: FpsCounter)
        ensures
            r.wf(),
            r.times@.len() == 0,
    {
        FpsCounter { times: VecDeque::with_capacity(FRAME_HISTORY + 1) }
    }

    /// Records a sample taken at `now`, evicting the oldest beyond capacity.
    pub fn record(&mut self, now: u64)
        requires
            old(self).wf(),
            old(self).times@.len() > 0 ==> old(self).times@.last() <= now,
        ensures
            final(self).wf(),
            final(self).times@ == record_spec(old(self).times@, now),
    {
        self.times.push_back(now);
        if self.times.len() > FRAME_HISTORY {
            self.times.pop_front();
        }
        assert(self.times@ =~= record_spec(old(self).times@, now));
    }

    /// Sample intervals and the span they cover, once two samples exist.
    pub fn rate_parts(&self) -> (r: Option<(u64, u64)>)
        requires
            self.wf(),
        ensures
            r is None <==> self.times@.len() < 2,
            r is Some ==> r.unwrap().0 == self.times@.len() - 1
                && r.unwrap().1 == self.times@.last() - self.times@[0],
    {
        let n = self.times.len();
        if n < 2 {
            None
        } else {
            let oldest = self.times[0];
            let newest = self.times[n - 1];
            Some(((n - 1) as u64, newest - oldest))
        }
    }

    /// The current rate in thousandths of a hertz.
    pub fn current_rate_millihertz(&self) -> (r: u64)
        requires
            self.wf(),
        ensures
            r as int == rate_spec(self.times@),
    {
        match self.rate_parts() {
            None => 0,
            Some((intervals, span)) => {
                if span == 0 {
                    0
                } else {
                    assert(intervals * 1_000_000_000_000 <= 59 * 1_000_000_000_000) by (nonlinear_arith)
                        requires intervals <= 59;
                    intervals * MILLIHERTZ_PER_PER_NANO / span
                }
            },
        }
    }
}

/// Two independent rates: one per render pass, one per host frame.
pub struct FpsView {
    pub render_fps: FpsCounter,
    pub frame_fps: FpsCounter,
}

impl FpsView {
    pub open spec fn wf(&self) -> bool {
        self.render_fps.wf() && self.frame_fps.wf()
    }

    pub fn new() -> (r: FpsView)
        ensures
            r.wf(),
            r.render_fps.times@.len() == 0,
            r.frame_fps.times@.len() == 0,
    {
        FpsView { render_fps: FpsCounter::new(), frame_fps: FpsCounter::new() }
    }
}

/// Whatever sorted times are recorded, the window holds at most sixty samples, and
/// exactly the latest ones: all of them up to sixty, then the sixty most recent.
pub proof fn lemma_window_keeps_latest(ts: Seq<u64>)
    ensures
        window_after(ts).len() <= 60,
        ts.len() <= 60 ==> window_after(ts) == ts,
        ts.len() > 60 ==> window_after(ts) == ts.subrange(ts.len() - 60, ts.len() as int),
    decreases ts.len(),
{
    if ts.len() > 0 {
        let p = ts.drop_last();
        lemma_window_keeps_latest(p);
        if ts.len() <= 60 {
            assert(window_after(ts) =~= ts);
        } else {
            assert(window_after(ts) =~= ts.subrange(ts.len() - 60, ts.len() as int));
        }
    }
}

/// The rate is zero until two samples exist; with two samples at `t0 < t1` it is the
/// reciprocal of their distance.
pub proof fn lemma_rate_of_first_samples(t0: u64, t1: u64)
    requires
        t0 < t1,
    ensures
        rate_spec(window_after(Seq::empty())) == 0,
        rate_spec(window_after(seq![t0])) == 0,
        rate_spec(window_after(seq![t0, t1])) == 1_000_000_000_000int / ((t1 - t0) as int),
{
    assert(seq![t0].drop_last() =~= Seq::<u64>::empty());
    assert(seq![t0, t1].drop_last() =~= seq![t0]);
    assert(window_after(Seq::<u64>::empty()) == Seq::<u64>::empty());
    assert(window_after(seq![t0]) == record_spec(Seq::<u64>::empty(), t0));
    assert(Seq::<u64>::empty().push(t0) =~= seq![t0]);
    assert(window_after(seq![t0]) =~= seq![t0]);
    assert(window_after(seq![t0, t1]) == record_spec(seq![t0], t1));
    assert(seq![t0].push(t1) =~= seq![t0, t1]);
    assert(window_after(seq![t0, t1]) =~= seq![t0, t1]);
}

} // verus!
