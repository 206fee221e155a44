use vstd::prelude::*;

verus! {

/// A repeating timer: it is due once more than its duration has passed
/// since it last triggered. The action to run on firing stays with the
/// driver, keyed by the handle.
#[derive(Clone, Copy, Debug, PartialEq, Eq, Structural)]
pub struct Interval {
    pub handle: usize,
    pub duration_ms: u64,
    pub last_triggered_ms: u64,
    pub enabled: bool,
}

/// A set of repeating timers with unique handles. `update` reports which
/// timers fired for a given current time; running their callbacks is the
/// driver's job.
pub struct IntervalsManager {
    pub intervals: Vec<Interval>,
}

impl View for IntervalsManager {
    type V = Seq<Interval>;

    open spec fn view(&self) -> Seq<Interval> {
        self.intervals@
    }
}

/// Every interval's handle is its index.
pub open spec fn intervals_wf(s: Seq<Interval>) -> bool {
    forall|i: int| 0 <= i < s.len() ==> (#[trigger] s[i]).handle == i
}

/// Whether an interval is due at time `now_ms`: enabled, and strictly more
/// than its duration has elapsed since it last triggered (time before the
/// last trigger counts as no elapsed time).
pub open spec fn interval_due(iv: Interval, now_ms: u64) -> bool {
    iv.enabled && now_ms > iv.last_triggered_ms && now_ms - iv.last_triggered_ms > iv.duration_ms
}

/// The interval as it stands after an update at `now_ms`.
pub open spec fn interval_after(iv: Interval, now_ms: u64) -> Interval {
    if interval_due(iv, now_ms) {
        Interval { last_triggered_ms: now_ms, ..iv }
    } else {
        iv
    }
}

/// The handles of the due intervals from `i` on, in index order, appended
/// to `acc`.
pub open spec fn fired_rec(s: Seq<Interval>, now_ms: u64, i: int, acc: Seq<usize>) -> Seq<usize>
    decreases s.len() - i,
{
    if i < 0 || i >= s.len() {
        acc
    } else if interval_due(s[i], now_ms) {
        fired_rec(s, now_ms, i + 1, acc.push(s[i].handle))
    } else {
        fired_rec(s, now_ms, i + 1, acc)
    }
}

impl Interval {
    /// A fresh interval, counted as last triggered now.
    pub fn new(handle: usize, duration_ms: u64, now_ms: u64) -> (iv: Interval)
        ensures
            iv == (Interval { handle, duration_ms, last_triggered_ms: now_ms, enabled: true }),
    {
        Interval { handle, duration_ms, last_triggered_ms: now_ms, enabled: true }
    }
}

impl IntervalsManager {
    pub fn new() -> (m: IntervalsManager)
        ensures
            m@ =~= Seq::<Interval>::empty(),
            intervals_wf(m@),
    {
        IntervalsManager { intervals: Vec::new() }
    }

    /// Register a new interval of the given duration, last triggered now;
    /// returns its handle.
    pub fn set_interval(&mut self, duration_ms: u64, now_ms: u64) -> (handle: usize)
        requires
            old(self)@.len() < usize::MAX,
        ensures
            handle == old(self)@.len(),
            final(self)@ =~= old(self)@.push(
                Interval {
                    handle,
                    duration_ms,
                    last_triggered_ms: now_ms,
                    enabled: true,
                },
            ),
            intervals_wf(old(self)@) ==> intervals_wf(final(self)@),
    {
        let handle = self.intervals.len();
        self.intervals.push(Interval::new(handle, duration_ms, now_ms));
        handle
    }

    /// Look an interval up by its handle.
    pub fn get_interval(&self, handle: usize) -> (r: Option<Interval>)
        ensures
            r == if handle < self@.len() {
                Some(self@[handle as int])
            } else {
                Option::<Interval>::None
            },
    {
        if handle < self.intervals.len() {
            Some(self.intervals[handle])
        } else {
            None
        }
    }

    /// Advance every interval to time `now_ms`: each due interval triggers
    /// (its last-triggered time moves to now) and its handle is reported,
    /// in index order.
    pub fn update(&mut self, now_ms: u64) -> (fired: Vec<usize>)
        ensures
            final(self)@.len() == old(self)@.len(),
            forall|i: int|
                0 <= i < old(self)@.len() ==> final(self)@[i] == interval_after(
                    #[trigger] old(self)@[i],
                    now_ms,
                ),
            fired@ == fired_rec(old(self)@, now_ms, 0, Seq::empty()),
            intervals_wf(old(self)@) ==> intervals_wf(final(self)@),
    {
        let ghost s0 = self.intervals@;
        let mut fired: Vec<usize> = Vec::new();
        let n = self.intervals.len();
        let mut i: usize = 0;
        while i < n
            invariant
                n == self.intervals@.len(),
                n == s0.len(),
                0 <= i <= n,
                forall|k: int|
                    0 <= k < i ==> self.intervals@[k] == interval_after(#[trigger] s0[k], now_ms),
                forall|k: int| i <= k < n ==> self.intervals@[k] == s0[k],
                fired_rec(s0, now_ms, i as int, fired@) == fired_rec(s0, now_ms, 0, Seq::empty()),
            decreases n - i,
        {
            let iv = self.intervals[i];
            let elapsed: u64 = if now_ms >= iv.last_triggered_ms {
                now_ms - iv.last_triggered_ms
            } else {
                0
            };
            if iv.enabled && elapsed > iv.duration_ms {
                fired.push(iv.handle);
                self.intervals.set(
                    i,
                    Interval { last_triggered_ms: now_ms, ..iv },
                );
            }
            i = i + 1;
        }
        proof {
            if intervals_wf(s0) {
                assert forall|k: int|
                    0 <= k < self.intervals@.len() implies (#[trigger] self.intervals@[k]).handle
                    == k by {
                    assert(self.intervals@[k] == interval_after(s0[k], now_ms));
                    assert(s0[k].handle == k);
                }
            }
        }
        fired
    }
}

} // verus!
