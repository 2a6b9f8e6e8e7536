use vstd::prelude::*;

use crate::ring::{bounded_push, RingBuffer};

verus! {

/// The largest number of frames the statistics remember, which keeps the running sums within
/// their integer types.
pub const MAX_CAPACITY: usize = 4096;

/// The number of frames the statistics remember unless told otherwise.
pub const DEFAULT_HISTORY: usize = 20;

/// The magnitude that a stored feedback correction never exceeds: the longest representable
/// target period.
pub const MAX_ADJUSTMENT: i128 = 18446744073709551615;

/// The sum of a sequence of frame durations.
pub open spec fn sum_u64(s: Seq<u64>) -> int
    decreases s.len(),
{
    if s.len() == 0 {
        0
    } else {
        sum_u64(s.drop_last()) + s.last()
    }
}

/// The sum of a sequence of signed deviations.
pub open spec fn sum_i64(s: Seq<i64>) -> int
    decreases s.len(),
{
    if s.len() == 0 {
        0
    } else {
        sum_i64(s.drop_last()) + s.last()
    }
}

pub proof fn lemma_sum_u64_push(s: Seq<u64>, x: u64)
    ensures
        sum_u64(s.push(x)) == sum_u64(s) + x,
{
    assert(s.push(x).drop_last() =~= s);
}

pub proof fn lemma_sum_i64_push(s: Seq<i64>, x: i64)
    ensures
        sum_i64(s.push(x)) == sum_i64(s) + x,
{
    assert(s.push(x).drop_last() =~= s);
}

pub proof fn lemma_sum_u64_drop_first(s: Seq<u64>)
    requires
        s.len() > 0,
    ensures
        sum_u64(s) == s[0] + sum_u64(s.drop_first()),
    decreases s.len(),
{
    if s.len() > 1 {
        lemma_sum_u64_drop_first(s.drop_last());
        assert(s.drop_last().drop_first() =~= s.drop_first().drop_last());
    } else {
        assert(s.drop_first() =~= Seq::<u64>::empty());
        assert(s.drop_last() =~= Seq::<u64>::empty());
    }
}

pub proof fn lemma_sum_i64_drop_first(s: Seq<i64>)
    requires
        s.len() > 0,
    ensures
        sum_i64(s) == s[0] + sum_i64(s.drop_first()),
    decreases s.len(),
{
    if s.len() > 1 {
        lemma_sum_i64_drop_first(s.drop_last());
        assert(s.drop_last().drop_first() =~= s.drop_first().drop_last());
    } else {
        assert(s.drop_first() =~= Seq::<i64>::empty());
        assert(s.drop_last() =~= Seq::<i64>::empty());
    }
}

pub proof fn lemma_sum_u64_bounds(s: Seq<u64>)
    ensures
        0 <= sum_u64(s) <= s.len() * (u64::MAX as int),
    decreases s.len(),
{
    if s.len() > 0 {
        lemma_sum_u64_bounds(s.drop_last());
        assert((s.len() - 1) * (u64::MAX as int) + u64::MAX == s.len() * (u64::MAX as int))
            by (nonlinear_arith);
    }
}

pub proof fn lemma_sum_i64_bounds(s: Seq<i64>)
    ensures
        -(s.len() * 0x8000_0000_0000_0000) <= sum_i64(s) <= s.len() * 0x8000_0000_0000_0000,
    decreases s.len(),
{
    if s.len() > 0 {
        lemma_sum_i64_bounds(s.drop_last());
        assert((s.len() - 1) * 0x8000_0000_0000_0000 + 0x8000_0000_0000_0000 == s.len()
            * 0x8000_0000_0000_0000) by (nonlinear_arith);
    }
}

/// The capacity a history is created with, for a requested `capacity`.
pub open spec fn clamp_capacity(capacity: int) -> nat {
    if capacity < 1 {
        1
    } else if capacity > MAX_CAPACITY {
        MAX_CAPACITY as nat
    } else {
        capacity as nat
    }
}

/// What the statistics hold: frame durations and deviations from the target, oldest first,
/// the feedback correction of the last paced frame and the length of the window.
pub struct StatsView {
    pub frametimes: Seq<u64>,
    pub deviations: Seq<i64>,
    pub last_adjustment: int,
    pub capacity: nat,
}

impl StatsView {
    pub open spec fn empty(capacity: nat) -> StatsView {
        StatsView {
            frametimes: Seq::empty(),
            deviations: Seq::empty(),
            last_adjustment: 0,
            capacity,
        }
    }

    /// The statistics after one more frame took `frametime` and missed its target by
    /// `deviation`.
    pub open spec fn record(self, frametime: u64, deviation: i64) -> StatsView {
        StatsView {
            frametimes: bounded_push(self.frametimes, frametime, self.capacity),
            deviations: bounded_push(self.deviations, deviation, self.capacity),
            ..self
        }
    }

    pub open spec fn with_adjustment(self, adjustment: int) -> StatsView {
        StatsView { last_adjustment: adjustment, ..self }
    }

    pub open spec fn last_frametime(self) -> int {
        if self.frametimes.len() == 0 {
            0
        } else {
            self.frametimes.last() as int
        }
    }

    pub open spec fn last_deviation(self) -> int {
        if self.deviations.len() == 0 {
            0
        } else {
            self.deviations.last() as int
        }
    }

    /// The change between the two newest deviations, zero with fewer than two.
    pub open spec fn deviation_delta(self) -> int {
        let n = self.deviations.len();
        if n < 2 {
            0
        } else {
            self.deviations[n - 1] - self.deviations[n - 2]
        }
    }

    pub open spec fn deviation_sum(self) -> int {
        sum_i64(self.deviations)
    }

    /// The mean of the remembered frame durations, rounded down; zero when none is.
    pub open spec fn average_frametime(self) -> int {
        if self.frametimes.len() == 0 {
            0
        } else {
            sum_u64(self.frametimes) / (self.frametimes.len() as int)
        }
    }
}

/// Bounded history of recent frame durations and of their deviations from the target period,
/// with the running aggregates that the feedback correction and diagnostics read.
#[derive(Debug, Clone)]
pub struct FramePaceStats {
    frametime_history: RingBuffer<u64>,
    deviation_history: RingBuffer<i64>,
    frametime_sum: u128,
    deviation_sum: i128,
    last_adjustment: i128,
}

impl View for FramePaceStats {
    type V = StatsView;

    closed spec fn view(&self) -> StatsView {
        StatsView {
            frametimes: self.frametime_history@,
            deviations: self.deviation_history@,
            last_adjustment: self.last_adjustment as int,
            capacity: self.frametime_history.capacity_spec(),
        }
    }
}

impl FramePaceStats {
    pub closed spec fn inv(&self) -> bool {
        &&& self.frametime_history.wf()
        &&& self.deviation_history.wf()
        &&& self.deviation_history.capacity_spec() == self.frametime_history.capacity_spec()
        &&& self.frametime_sum == sum_u64(self.frametime_history@)
        &&& self.deviation_sum == sum_i64(self.deviation_history@)
        &&& -MAX_ADJUSTMENT <= self.last_adjustment <= MAX_ADJUSTMENT
    }

    pub open spec fn wf(&self) -> bool {
        &&& self.inv()
        &&& 1 <= self@.capacity <= MAX_CAPACITY
        &&& self@.frametimes.len() <= self@.capacity
        &&& self@.deviations.len() <= self@.capacity
        &&& -MAX_ADJUSTMENT <= self@.last_adjustment <= MAX_ADJUSTMENT
    }

    /// Empty statistics remembering `capacity` frames, brought into `1..=MAX_CAPACITY`.
    pub fn new(capacity: usize) -> (r: Self)
        ensures
            r.wf(),
            r@ == StatsView::empty(clamp_capacity(capacity as int)),
    {
        let cap = if capacity < 1 {
            1
        } else if capacity > MAX_CAPACITY {
            MAX_CAPACITY
        } else {
            capacity
        };
        let r = FramePaceStats {
            frametime_history: RingBuffer::new(cap),
            deviation_history: RingBuffer::new(cap),
            frametime_sum: 0,
            deviation_sum: 0,
            last_adjustment: 0,
        };
        assert(r@ =~= StatsView::empty(clamp_capacity(capacity as int)));
        r
    }

    /// Appends one frame's total duration and its deviation from the target. When the window
    /// is full, the oldest sample of each history leaves, and its deviation is taken out of
    /// the running sum before the new one is added.
    pub fn record(&mut self, total_frametime: u64, deviation: i64)
        requires
            old(self).wf(),
        ensures
            final(self).wf(),
            final(self)@ == old(self)@.record(total_frametime, deviation),
    {
        proof {
            lemma_sum_u64_bounds(self.frametime_history@);
            lemma_sum_i64_bounds(self.deviation_history@);
        }
        let old_frametimes = Ghost(self.frametime_history@);
        let old_deviations = Ghost(self.deviation_history@);
        if let Some(oldest) = self.frametime_history.push(total_frametime) {
            proof {
                lemma_sum_u64_drop_first(old_frametimes@);
                lemma_sum_u64_bounds(old_frametimes@.drop_first());
            }
            self.frametime_sum = self.frametime_sum - oldest as u128;
        }
        if let Some(oldest) = self.deviation_history.push(deviation) {
            proof {
                lemma_sum_i64_drop_first(old_deviations@);
                lemma_sum_i64_bounds(old_deviations@.drop_first());
            }
            self.deviation_sum = self.deviation_sum - oldest as i128;
        }
        proof {
            let kept_f = if old_frametimes@.len() < self@.capacity {
                old_frametimes@
            } else {
                old_frametimes@.drop_first()
            };
            let kept_d = if old_deviations@.len() < self@.capacity {
                old_deviations@
            } else {
                old_deviations@.drop_first()
            };
            lemma_sum_u64_push(kept_f, total_frametime);
            lemma_sum_i64_push(kept_d, deviation);
            lemma_sum_u64_bounds(kept_f);
            lemma_sum_i64_bounds(kept_d);
        }
        self.frametime_sum = self.frametime_sum + total_frametime as u128;
        self.deviation_sum = self.deviation_sum + deviation as i128;
        assert(self@ =~= old(self)@.record(total_frametime, deviation));
    }

    /// Stores the feedback correction that the last paced frame used.
    pub fn set_last_adjustment(&mut self, adjustment: i128)
        requires
            old(self).wf(),
            -MAX_ADJUSTMENT <= adjustment <= MAX_ADJUSTMENT,
        ensures
            final(self).wf(),
            final(self)@ == old(self)@.with_adjustment(adjustment as int),
    {
        self.last_adjustment = adjustment;
        assert(self@ =~= old(self)@.with_adjustment(adjustment as int));
    }

    /// The number of frames each history remembers at most.
    pub fn capacity(&self) -> (r: usize)
        requires
            self.wf(),
        ensures
            r == self@.capacity,
    {
        self.frametime_history.capacity()
    }

    /// The number of frames remembered now.
    pub fn len(&self) -> (r: usize)
        requires
            self.wf(),
        ensures
            r == self@.frametimes.len(),
    {
        self.frametime_history.len()
    }

    /// The newest total frame duration, or zero before any frame.
    pub fn last_frametime(&self) -> (r: u64)
        requires
            self.wf(),
        ensures
            r == self@.last_frametime(),
    {
        match self.frametime_history.last() {
            Some(t) => t,
            None => 0,
        }
    }

    /// The newest deviation from the target, or zero before any frame.
    pub fn last_deviation(&self) -> (r: i64)
        requires
            self.wf(),
        ensures
            r == self@.last_deviation(),
    {
        match self.deviation_history.last() {
            Some(d) => d,
            None => 0,
        }
    }

    /// The newest deviation minus the one before it; zero with fewer than two.
    pub fn last_deviation_delta(&self) -> (r: i128)
        requires
            self.wf(),
        ensures
            r == self@.deviation_delta(),
    {
        let n = self.deviation_history.len();
        if n < 2 {
            0
        } else {
            self.deviation_history.get(n - 1) as i128 - self.deviation_history.get(n - 2) as i128
        }
    }

    /// The running sum of the remembered deviations, read in constant time.
    pub fn deviation_sum(&self) -> (r: i128)
        requires
            self.wf(),
        ensures
            r == self@.deviation_sum(),
    {
        self.deviation_sum
    }

    /// The mean of the remembered frame durations, rounded down; zero before any frame.
    pub fn average_frametime(&self) -> (r: u64)
        requires
            self.wf(),
        ensures
            r == self@.average_frametime(),
    {
        let n = self.frametime_history.len();
        if n == 0 {
            0
        } else {
            proof {
                let s = self.frametime_sum as int;
                let m = n as int;
                lemma_sum_u64_bounds(self.frametime_history@);
                assert(s / m <= u64::MAX) by (nonlinear_arith)
                    requires
                        0 <= s <= m * (u64::MAX as int),
                        m > 0,
                ;
            }
            (self.frametime_sum / (n as u128)) as u64
        }
    }

    /// The feedback correction that the last paced frame used.
    pub fn last_adjustment(&self) -> (r: i128)
        requires
            self.wf(),
        ensures
            r == self@.last_adjustment,
    {
        self.last_adjustment
    }

    /// A copy of the remembered frame durations, oldest first.
    pub fn frametime_history(&self) -> (r: Vec<u64>)
        requires
            self.wf(),
        ensures
            r@ == self@.frametimes,
    {
        let n = self.frametime_history.len();
        let mut r: Vec<u64> = Vec::new();
        let mut i: usize = 0;
        while i < n
            invariant
                self.wf(),
                n == self@.frametimes.len(),
                i <= n,
                r@ == self@.frametimes.subrange(0, i as int),
            decreases n - i,
        {
            r.push(self.frametime_history.get(i));
            i = i + 1;
            assert(r@ =~= self@.frametimes.subrange(0, i as int));
        }
        assert(r@ =~= self@.frametimes);
        r
    }

    /// A copy of the remembered deviations, oldest first.
    pub fn deviation_history(&self) -> (r: Vec<i64>)
        requires
            self.wf(),
        ensures
            r@ == self@.deviations,
    {
        let n = self.deviation_history.len();
        let mut r: Vec<i64> = Vec::new();
        let mut i: usize = 0;
        while i < n
            invariant
                self.wf(),
                n == self@.deviations.len(),
                i <= n,
                r@ == self@.deviations.subrange(0, i as int),
            decreases n - i,
        {
            r.push(self.deviation_history.get(i));
            i = i + 1;
            assert(r@ =~= self@.deviations.subrange(0, i as int));
        }
        assert(r@ =~= self@.deviations);
        r
    }
}

impl Default for FramePaceStats {
    fn default() -> (r: Self)
        ensures
            r.wf(),
            r@ == StatsView::empty(DEFAULT_HISTORY as nat),
    {
        FramePaceStats::new(DEFAULT_HISTORY)
    }
}

} // verus!
