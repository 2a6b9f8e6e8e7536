use vstd::prelude::*;

use crate::controller::{
    adjustment_for, finish_frame, finish_spec, sleep_for, Gains, PacingController, SleepPlan,
};
use crate::limiter::LimiterState;
use crate::stats::{clamp_capacity, FramePaceStats, StatsView};

verus! {

/// The nanoseconds from `start` to `now`, zero if `now` is earlier.
pub open spec fn elapsed_spec(start: u64, now: u64) -> int {
    if now >= start {
        now - start
    } else {
        0
    }
}

/// Marks the start of the current measurement window: the end of the previous frame's sleep.
#[derive(Debug, Clone, Copy, PartialEq, Eq, Structural)]
pub struct FrameTimer {
    sleep_end: u64,
}

impl FrameTimer {
    pub closed spec fn start(&self) -> u64 {
        self.sleep_end
    }

    /// A timer whose window starts at `now`.
    pub fn new(now: u64) -> (r: Self)
        ensures
            r.start() == now,
    {
        FrameTimer { sleep_end: now }
    }

    /// The instant the window started at.
    pub fn sleep_end(&self) -> (r: u64)
        ensures
            r == self.start(),
    {
        self.sleep_end
    }

    /// The time since the window started.
    pub fn elapsed(&self, now: u64) -> (r: u64)
        ensures
            r == elapsed_spec(self.start(), now),
    {
        if now >= self.sleep_end {
            now - self.sleep_end
        } else {
            0
        }
    }

    /// Starts a new window at `now`.
    pub fn reset(&mut self, now: u64)
        ensures
            final(self).start() == now,
    {
        self.sleep_end = now;
    }
}

/// A frame that overran its target by more than the drop threshold while the limiter was on.
#[derive(Debug, Clone, Copy, PartialEq, Eq, Structural)]
pub struct FrameDrop {
    pub actual: u64,
    pub target: u64,
}

/// A frame that has been planned and whose sleep is under way.
#[derive(Debug, Clone, Copy, PartialEq, Eq, Structural)]
pub struct PendingFrame {
    pub target: u64,
    pub plan: SleepPlan,
    pub enabled: bool,
}

/// What a [`FramePacer`] holds.
pub struct PacerView {
    pub window_start: u64,
    pub limiter: LimiterState,
    pub stats: StatsView,
    pub controller: PacingController,
    pub pending: Option<PendingFrame>,
}

/// The pending frame for one planned against `target` with `stats`, after `work_time` of work.
pub open spec fn plan_spec(
    controller: PacingController,
    stats: StatsView,
    limiter: LimiterState,
    work_time: u64,
) -> PendingFrame {
    let target = limiter.target_period;
    let adjustment = adjustment_for(controller.gains, stats, target);
    PendingFrame {
        target,
        plan: SleepPlan {
            adjustment: adjustment as i128,
            sleep: sleep_for(target, work_time, adjustment) as u64,
        },
        enabled: limiter.enabled,
    }
}

/// The pacer `v` after [`FramePacer::begin_frame`] at `now` with the lock read `shared`, and
/// the sleep it returns.
pub open spec fn begin_spec(v: PacerView, now: u64, shared: Option<LimiterState>) -> (
    PacerView,
    Option<u64>,
) {
    let limiter = match shared {
        Some(s) => s,
        None => v.limiter,
    };
    if limiter.target_period == 0 {
        (PacerView { window_start: now, limiter, pending: None, ..v }, None)
    } else {
        let p = plan_spec(
            v.controller,
            v.stats,
            limiter,
            elapsed_spec(v.window_start, now) as u64,
        );
        (
            PacerView { limiter, pending: Some(p), ..v },
            Some(
                if p.enabled {
                    p.plan.sleep
                } else {
                    0
                },
            ),
        )
    }
}

/// The pacer `v` after [`FramePacer::end_frame`] at `now`, and the frame drop it reports.
pub open spec fn end_spec(v: PacerView, now: u64) -> (PacerView, Option<FrameDrop>) {
    match v.pending {
        None => (v, None),
        Some(p) => {
            let actual = elapsed_spec(v.window_start, now) as u64;
            (
                PacerView {
                    window_start: now,
                    stats: finish_spec(v.stats, p.plan.adjustment as int, p.target, actual),
                    pending: None,
                    ..v
                },
                if p.enabled && actual > p.target + v.controller.drop_threshold {
                    Some(FrameDrop { actual, target: p.target })
                } else {
                    None
                },
            )
        },
    }
}

/// Paces one loop: once per iteration the caller asks [`FramePacer::begin_frame`] how long to
/// sleep, sleeps, and reports the time it woke to [`FramePacer::end_frame`].
#[derive(Debug, Clone)]
pub struct FramePacer {
    timer: FrameTimer,
    limiter: LimiterState,
    stats: FramePaceStats,
    controller: PacingController,
    pending: Option<PendingFrame>,
}

impl View for FramePacer {
    type V = PacerView;

    closed spec fn view(&self) -> PacerView {
        PacerView {
            window_start: self.timer.start(),
            limiter: self.limiter,
            stats: self.stats@,
            controller: self.controller,
            pending: self.pending,
        }
    }
}

impl FramePacer {
    pub closed spec fn inv(&self) -> bool {
        &&& self.stats.wf()
        &&& self.controller.wf()
        &&& self.pending matches Some(p) ==> -(p.target as int) <= p.plan.adjustment <= p.target
    }

    pub open spec fn wf(&self) -> bool {
        &&& self.inv()
        &&& self@.controller.wf()
        &&& self@.pending matches Some(p) ==> -(p.target as int) <= p.plan.adjustment <= p.target
    }

    /// A pacer whose first window starts at `now`, with no target yet, remembering `history`
    /// frames (brought into the allowed range).
    pub fn new(now: u64, controller: PacingController, history: usize) -> (r: Self)
        requires
            controller.wf(),
        ensures
            r.wf(),
            r@ == (PacerView {
                window_start: now,
                limiter: LimiterState { target_period: 0, enabled: true },
                stats: StatsView::empty(clamp_capacity(history as int)),
                controller,
                pending: None,
            }),
    {
        FramePacer {
            timer: FrameTimer::new(now),
            limiter: LimiterState::unresolved(),
            stats: FramePaceStats::new(history),
            controller,
            pending: None,
        }
    }

    /// A pacer with the default gains and history length.
    pub fn with_defaults(now: u64) -> (r: Self)
        ensures
            r.wf(),
            r@.window_start == now,
            r@.limiter == (LimiterState { target_period: 0, enabled: true }),
            r@.stats == StatsView::empty(crate::stats::DEFAULT_HISTORY as nat),
            r@.controller.gains == (Gains {
                proportional: crate::controller::DEFAULT_PROPORTIONAL,
                integral: crate::controller::DEFAULT_INTEGRAL,
                derivative: crate::controller::DEFAULT_DERIVATIVE,
            }),
            r@.controller.drop_threshold == crate::controller::DEFAULT_DROP_THRESHOLD,
            r@.pending is None,
    {
        FramePacer::new(now, PacingController::default(), crate::stats::DEFAULT_HISTORY)
    }

    /// Starts the pacing of one frame at `now`. `shared` is the result of a non-blocking read
    /// of the shared limiter state, `None` where the read met contention and the cached state
    /// stands. Returns how long to sleep, or `None` when no target is resolved yet: then the
    /// frame is skipped, nothing is recorded and the measurement window restarts at `now`.
    pub fn begin_frame(&mut self, now: u64, shared: Option<LimiterState>) -> (r: Option<u64>)
        requires
            old(self).wf(),
        ensures
            final(self).wf(),
            (final(self)@, r) == begin_spec(old(self)@, now, shared),
            final(self)@.limiter == (match shared {
                Some(s) => s,
                None => old(self)@.limiter,
            }),
            final(self)@.stats == old(self)@.stats,
            final(self)@.controller == old(self)@.controller,
            final(self)@.limiter.target_period == 0 ==> {
                &&& r is None
                &&& final(self)@.pending is None
                &&& final(self)@.window_start == now
            },
            final(self)@.limiter.target_period > 0 ==> {
                let p = plan_spec(
                    old(self)@.controller,
                    old(self)@.stats,
                    final(self)@.limiter,
                    elapsed_spec(old(self)@.window_start, now) as u64,
                );
                &&& final(self)@.pending == Some(p)
                &&& r == Some(
                    if p.enabled {
                        p.plan.sleep
                    } else {
                        0
                    },
                )
                &&& final(self)@.window_start == old(self)@.window_start
            },
            !final(self)@.limiter.enabled ==> (r is None || r == Some(0u64)),
            r matches Some(s) ==> s <= final(self)@.limiter.target_period,
    {
        self.limiter.observe(shared);
        let target = self.limiter.target_period;
        if target == 0 {
            self.pending = None;
            self.timer.reset(now);
            None
        } else {
            let work_time = self.timer.elapsed(now);
            let plan = self.controller.plan(&self.stats, target, work_time);
            let enabled = self.limiter.enabled;
            self.pending = Some(PendingFrame { target, plan, enabled });
            if enabled {
                Some(plan.sleep)
            } else {
                Some(0)
            }
        }
    }

    /// Ends the pending frame at `now`, the instant its sleep ended: records its total duration
    /// and deviation, keeps its correction for the next frame and starts a new window. Returns
    /// the frame drop to report, if the limiter was on and the frame overran its target by
    /// more than the threshold. Without a pending frame nothing changes.
    pub fn end_frame(&mut self, now: u64) -> (r: Option<FrameDrop>)
        requires
            old(self).wf(),
        ensures
            final(self).wf(),
            (final(self)@, r) == end_spec(old(self)@, now),
            old(self)@.pending is None ==> (final(self)@ == old(self)@ && r is None),
            old(self)@.pending matches Some(p) ==> {
                let actual = elapsed_spec(old(self)@.window_start, now) as u64;
                &&& final(self)@.stats == finish_spec(
                    old(self)@.stats,
                    p.plan.adjustment as int,
                    p.target,
                    actual,
                )
                &&& final(self)@.window_start == now
                &&& final(self)@.pending is None
                &&& final(self)@.limiter == old(self)@.limiter
                &&& final(self)@.controller == old(self)@.controller
                &&& r == (if p.enabled && actual > p.target + old(self)@.controller.drop_threshold {
                    Some(FrameDrop { actual, target: p.target })
                } else {
                    None::<FrameDrop>
                })
            },
    {
        match self.pending {
            None => None,
            Some(p) => {
                let actual = self.timer.elapsed(now);
                finish_frame(&mut self.stats, p.plan.adjustment, p.target, actual);
                self.timer.reset(now);
                self.pending = None;
                if p.enabled && self.controller.is_frame_drop(actual, p.target) {
                    Some(FrameDrop { actual, target: p.target })
                } else {
                    None
                }
            },
        }
    }

    /// The frame statistics, for diagnostics.
    pub fn stats(&self) -> (r: &FramePaceStats)
        requires
            self.wf(),
        ensures
            r.wf(),
            r@ == self@.stats,
    {
        &self.stats
    }

    /// The limiter state the pacer works with.
    pub fn limiter_state(&self) -> (r: LimiterState)
        ensures
            r == self@.limiter,
    {
        self.limiter
    }

    /// The measurement timer.
    pub fn timer(&self) -> (r: FrameTimer)
        ensures
            r.start() == self@.window_start,
    {
        self.timer
    }

    /// The frame planned by the last [`FramePacer::begin_frame`] and not yet ended.
    pub fn pending(&self) -> (r: Option<PendingFrame>)
        ensures
            r == self@.pending,
    {
        self.pending
    }
}

} // verus!
