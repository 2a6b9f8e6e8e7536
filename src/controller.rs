use vstd::prelude::*;

use crate::stats::MAX_CAPACITY;
use crate::stats::{lemma_sum_i64_bounds, FramePaceStats, StatsView, MAX_ADJUSTMENT};

verus! {

/// Gains are fixed-point numbers: a gain of `GAIN_SCALE` stands for one.
pub const GAIN_SCALE: i64 = 1000;

/// The largest magnitude of a gain, a thousand times unity.
pub const MAX_GAIN: i64 = 1_000_000;

/// Default proportional gain (one half).
pub const DEFAULT_PROPORTIONAL: i64 = 500;

/// Default integral gain (one hundredth).
pub const DEFAULT_INTEGRAL: i64 = 10;

/// Default derivative gain (one tenth).
pub const DEFAULT_DERIVATIVE: i64 = 100;

/// By default a frame that overruns its target by more than this many nanoseconds counts as
/// dropped.
pub const DEFAULT_DROP_THRESHOLD: u64 = 100_000;

pub open spec fn clamp(x: int, lo: int, hi: int) -> int {
    if x < lo {
        lo
    } else if x > hi {
        hi
    } else {
        x
    }
}

/// `a / d` rounded toward zero, for `d > 0`.
pub open spec fn div_toward_zero(a: int, d: int) -> int {
    if a >= 0 {
        a / d
    } else {
        -((-a) / d)
    }
}

/// The three feedback gains, in units of `1 / GAIN_SCALE`.
#[derive(Debug, Clone, Copy, PartialEq, Eq, Structural)]
pub struct Gains {
    pub proportional: i64,
    pub integral: i64,
    pub derivative: i64,
}

pub open spec fn clamp_gain(g: i64) -> i64 {
    clamp(g as int, -MAX_GAIN, MAX_GAIN as int) as i64
}

fn clamp_gain_exec(g: i64) -> (r: i64)
    ensures
        r == clamp_gain(g),
{
    if g < -MAX_GAIN {
        -MAX_GAIN
    } else if g > MAX_GAIN {
        MAX_GAIN
    } else {
        g
    }
}

impl Gains {
    pub open spec fn wf(&self) -> bool {
        &&& -MAX_GAIN <= self.proportional <= MAX_GAIN
        &&& -MAX_GAIN <= self.integral <= MAX_GAIN
        &&& -MAX_GAIN <= self.derivative <= MAX_GAIN
    }

    /// Gains from the given values, each brought into `-MAX_GAIN..=MAX_GAIN`.
    pub fn new(proportional: i64, integral: i64, derivative: i64) -> (r: Self)
        ensures
            r.wf(),
            r == (Gains {
                proportional: clamp_gain(proportional),
                integral: clamp_gain(integral),
                derivative: clamp_gain(derivative),
            }),
    {
        Gains {
            proportional: clamp_gain_exec(proportional),
            integral: clamp_gain_exec(integral),
            derivative: clamp_gain_exec(derivative),
        }
    }
}

impl Default for Gains {
    fn default() -> (r: Self)
        ensures
            r.wf(),
            r == (Gains {
                proportional: DEFAULT_PROPORTIONAL,
                integral: DEFAULT_INTEGRAL,
                derivative: DEFAULT_DERIVATIVE,
            }),
    {
        Gains {
            proportional: DEFAULT_PROPORTIONAL,
            integral: DEFAULT_INTEGRAL,
            derivative: DEFAULT_DERIVATIVE,
        }
    }
}

/// The weighted sum of the newest deviation, the deviation sum and the newest change of
/// deviation, scaled down by `GAIN_SCALE` and rounded toward zero.
pub open spec fn correction(gains: Gains, stats: StatsView) -> int {
    div_toward_zero(
        gains.proportional * stats.last_deviation() + gains.integral * stats.deviation_sum()
            + gains.derivative * stats.deviation_delta(),
        GAIN_SCALE as int,
    )
}

/// The feedback correction for the next frame: the last one plus the new correction, held
/// within `[-target, target]`.
pub open spec fn adjustment_for(gains: Gains, stats: StatsView, target: u64) -> int {
    clamp(stats.last_adjustment + correction(gains, stats), -target, target as int)
}

/// The sleep that would end the frame on time if sleeping were exact.
pub open spec fn ideal_sleep(target: u64, work_time: u64) -> int {
    if work_time < target {
        target - work_time
    } else {
        0
    }
}

/// The sleep to request: the ideal sleep less the correction, held within `[0, target]`.
pub open spec fn sleep_for(target: u64, work_time: u64, adjustment: int) -> int {
    clamp(ideal_sleep(target, work_time) - adjustment, 0, target as int)
}

/// How much a frame of `actual` nanoseconds overran a target of `target`, negative when it
/// was short, saturated at the bounds of `i64`.
pub open spec fn deviation_of(actual: u64, target: u64) -> i64 {
    clamp(actual - target, i64::MIN as int, i64::MAX as int) as i64
}

/// The statistics after a frame that used `adjustment` took `actual` nanoseconds in total.
pub open spec fn finish_spec(stats: StatsView, adjustment: int, target: u64, actual: u64) -> StatsView {
    stats.record(actual, deviation_of(actual, target)).with_adjustment(adjustment)
}

/// What the controller decided for one frame.
#[derive(Debug, Clone, Copy, PartialEq, Eq, Structural)]
pub struct SleepPlan {
    /// The feedback correction used, in nanoseconds.
    pub adjustment: i128,
    /// How long to sleep, in nanoseconds.
    pub sleep: u64,
}

/// The feedback algorithm that picks each frame's sleep.
#[derive(Debug, Clone, Copy, PartialEq, Eq, Structural)]
pub struct PacingController {
    pub gains: Gains,
    /// A frame that overruns its target by more than this many nanoseconds counts as dropped.
    pub drop_threshold: u64,
}

proof fn lemma_mul_bound(a: int, b: int, x: int, y: int)
    requires
        -x <= a <= x,
        -y <= b <= y,
    ensures
        -(x * y) <= a * b <= x * y,
{
    assert(-(x * y) <= a * b <= x * y) by (nonlinear_arith)
        requires
            -x <= a <= x,
            -y <= b <= y,
    ;
}

/// `a` over a positive `d`, rounded toward zero.
fn div_toward_zero_exec(a: i128, d: i128) -> (r: i128)
    requires
        d > 0,
        a > i128::MIN,
    ensures
        r == div_toward_zero(a as int, d as int),
{
    if a >= 0 {
        a / d
    } else {
        let na = -a;
        let q = na / d;
        proof {
            let (x, y) = (na as int, d as int);
            assert(x / y <= x) by (nonlinear_arith)
                requires
                    x > 0,
                    y > 0,
            ;
        }
        -q
    }
}

/// Saturates `d` into the range of `i64`.
fn saturate_i64(d: i128) -> (r: i64)
    ensures
        r == clamp(d as int, i64::MIN as int, i64::MAX as int),
{
    if d < i64::MIN as i128 {
        i64::MIN
    } else if d > i64::MAX as i128 {
        i64::MAX
    } else {
        d as i64
    }
}

/// The deviation of a frame of `actual` nanoseconds from a target of `target`.
pub fn deviation(actual: u64, target: u64) -> (r: i64)
    ensures
        r == deviation_of(actual, target),
{
    saturate_i64(actual as i128 - target as i128)
}

impl PacingController {
    pub open spec fn wf(&self) -> bool {
        self.gains.wf()
    }

    /// A controller with `gains` and the default drop threshold.
    pub fn new(gains: Gains) -> (r: Self)
        ensures
            r == (PacingController { gains, drop_threshold: DEFAULT_DROP_THRESHOLD }),
    {
        PacingController { gains, drop_threshold: DEFAULT_DROP_THRESHOLD }
    }

    /// The feedback correction and the sleep for a frame whose work took `work_time` against a
    /// target of `target`.
    pub fn plan(&self, stats: &FramePaceStats, target: u64, work_time: u64) -> (r: SleepPlan)
        requires
            self.wf(),
            stats.wf(),
        ensures
            r.adjustment == adjustment_for(self.gains, stats@, target),
            r.sleep == sleep_for(target, work_time, r.adjustment as int),
            -(target as int) <= r.adjustment <= target,
            r.sleep <= target,
    {
        let ghost s = stats@;
        let last = stats.last_deviation() as i128;
        let sum = stats.deviation_sum();
        let delta = stats.last_deviation_delta();
        proof {
            let pow63: int = 0x8000_0000_0000_0000int;
            lemma_sum_i64_bounds(s.deviations);
            lemma_mul_bound(s.deviations.len() as int, pow63, MAX_CAPACITY as int, pow63);
            lemma_mul_bound(
                self.gains.proportional as int,
                last as int,
                MAX_GAIN as int,
                pow63,
            );
            lemma_mul_bound(
                self.gains.integral as int,
                sum as int,
                MAX_GAIN as int,
                MAX_CAPACITY * pow63,
            );
            lemma_mul_bound(
                self.gains.derivative as int,
                delta as int,
                MAX_GAIN as int,
                2 * pow63,
            );
        }
        let weighted = self.gains.proportional as i128 * last + self.gains.integral as i128 * sum
            + self.gains.derivative as i128 * delta;
        let corr = div_toward_zero_exec(weighted, GAIN_SCALE as i128);
        proof {
            let w = weighted as int;
            let g = GAIN_SCALE as int;
            if w >= 0 {
                assert(w / g <= w) by (nonlinear_arith)
                    requires
                        w >= 0,
                        g > 0,
                ;
            }
        }
        let raw = stats.last_adjustment() + corr;
        let t = target as i128;
        let adjustment = if raw < -t {
            -t
        } else if raw > t {
            t
        } else {
            raw
        };
        let ideal: u64 = if work_time < target {
            target - work_time
        } else {
            0
        };
        let want = ideal as i128 - adjustment;
        let sleep: u64 = if want < 0 {
            0
        } else if want > t {
            target
        } else {
            want as u64
        };
        SleepPlan { adjustment, sleep }
    }

    /// Whether a frame of `actual` nanoseconds overran `target` by more than the drop
    /// threshold.
    pub fn is_frame_drop(&self, actual: u64, target: u64) -> (r: bool)
        ensures
            r == (actual > target + self.drop_threshold),
    {
        actual > target && actual - target > self.drop_threshold
    }
}

impl Default for PacingController {
    fn default() -> (r: Self)
        ensures
            r.wf(),
            r == (PacingController {
                gains: Gains {
                    proportional: DEFAULT_PROPORTIONAL,
                    integral: DEFAULT_INTEGRAL,
                    derivative: DEFAULT_DERIVATIVE,
                },
                drop_threshold: DEFAULT_DROP_THRESHOLD,
            }),
    {
        PacingController::new(Gains::default())
    }
}

/// Records a finished frame: it took `actual` nanoseconds in total against `target` and used
/// the correction `adjustment`, which the next frame builds on.
pub fn finish_frame(stats: &mut FramePaceStats, adjustment: i128, target: u64, actual: u64)
    requires
        old(stats).wf(),
        -MAX_ADJUSTMENT <= adjustment <= MAX_ADJUSTMENT,
    ensures
        final(stats).wf(),
        final(stats)@ == finish_spec(old(stats)@, adjustment as int, target, actual),
{
    let d = deviation(actual, target);
    stats.record(actual, d);
    stats.set_last_adjustment(adjustment);
}

} // verus!
