use vstd::prelude::*;

use crate::controller::{finish_spec, PacingController};
use crate::limiter::LimiterState;
use crate::pacer::{begin_spec, elapsed_spec, end_spec, plan_spec, PacerView};
use crate::stats::MAX_CAPACITY;
use crate::stats::{sum_i64, sum_u64, StatsView};

verus! {

/// The statistics after one frame paced against `target` that works `work_time` and then
/// sleeps exactly as long as it asked to.
pub open spec fn noiseless_step(
    controller: PacingController,
    stats: StatsView,
    target: u64,
    work_time: u64,
) -> StatsView {
    let limiter = LimiterState { target_period: target, enabled: true };
    let p = plan_spec(controller, stats, limiter, work_time);
    finish_spec(stats, p.plan.adjustment as int, target, (work_time + p.plan.sleep) as u64)
}

/// The statistics after `n` such frames.
pub open spec fn noiseless_run(
    controller: PacingController,
    stats: StatsView,
    target: u64,
    work_time: u64,
    n: nat,
) -> StatsView
    decreases n,
{
    if n == 0 {
        stats
    } else {
        noiseless_step(
            controller,
            noiseless_run(controller, stats, target, work_time, (n - 1) as nat),
            target,
            work_time,
        )
    }
}

/// Every frame remembered took `target`, every deviation is zero and no correction is held.
spec fn settled(s: StatsView, target: u64, n: nat) -> bool {
    &&& s.frametimes.len() == s.deviations.len()
    &&& s.frametimes.len() == if n < s.capacity { n } else { s.capacity }
    &&& forall|i: int| 0 <= i < s.frametimes.len() ==> s.frametimes[i] == target
    &&& forall|i: int| 0 <= i < s.deviations.len() ==> s.deviations[i] == 0
    &&& s.last_adjustment == 0
}

proof fn lemma_sum_zeros(s: Seq<i64>)
    requires
        forall|i: int| 0 <= i < s.len() ==> s[i] == 0,
    ensures
        sum_i64(s) == 0,
    decreases s.len(),
{
    if s.len() > 0 {
        lemma_sum_zeros(s.drop_last());
    }
}

proof fn lemma_sum_constant(s: Seq<u64>, t: u64)
    requires
        forall|i: int| 0 <= i < s.len() ==> s[i] == t,
    ensures
        sum_u64(s) == s.len() * t,
    decreases s.len(),
{
    if s.len() > 0 {
        lemma_sum_constant(s.drop_last(), t);
        assert((s.len() - 1) * t + t == s.len() * t) by (nonlinear_arith);
    }
}

proof fn lemma_mul_zero(a: int, b: int)
    requires
        b == 0,
    ensures
        a * b == 0,
{
}

proof fn lemma_noiseless_step_settled(
    controller: PacingController,
    s: StatsView,
    target: u64,
    work_time: u64,
    n: nat,
)
    requires
        work_time < target,
        s.capacity >= 1,
        settled(s, target, n),
    ensures
        plan_spec(
            controller,
            s,
            LimiterState { target_period: target, enabled: true },
            work_time,
        ).plan.sleep == target - work_time,
        noiseless_step(controller, s, target, work_time).capacity == s.capacity,
        settled(noiseless_step(controller, s, target, work_time), target, n + 1),
{
    lemma_sum_zeros(s.deviations);
    let m = s.deviations.len() as int;
    if m > 0 {
        assert(s.deviations[m - 1] == 0);
    }
    if m > 1 {
        assert(s.deviations[m - 2] == 0);
    }
    assert(s.deviation_delta() == 0);
    let g = controller.gains;
    assert(s.last_deviation() == 0);
    lemma_mul_zero(g.proportional as int, s.last_deviation());
    lemma_mul_zero(g.integral as int, s.deviation_sum());
    lemma_mul_zero(g.derivative as int, s.deviation_delta());
    assert(crate::controller::correction(g, s) == 0);
    let limiter = LimiterState { target_period: target, enabled: true };
    let p = plan_spec(controller, s, limiter, work_time);
    assert(p.plan.adjustment == 0);
    assert(p.plan.sleep == target - work_time);
    let next = noiseless_step(controller, s, target, work_time);
    let f = s.frametimes;
    let d = s.deviations;
    if f.len() < s.capacity {
        assert(next.frametimes =~= f.push(target));
        assert(next.deviations =~= d.push(0i64));
    } else {
        assert(next.frametimes =~= f.drop_first().push(target));
        assert(next.deviations =~= d.drop_first().push(0i64));
    }
}

proof fn lemma_noiseless_run_settled(
    controller: PacingController,
    capacity: nat,
    target: u64,
    work_time: u64,
    n: nat,
)
    requires
        work_time < target,
        capacity >= 1,
    ensures
        noiseless_run(controller, StatsView::empty(capacity), target, work_time, n).capacity
            == capacity,
        settled(noiseless_run(controller, StatsView::empty(capacity), target, work_time, n), target, n),
    decreases n,
{
    if n > 0 {
        lemma_noiseless_run_settled(controller, capacity, target, work_time, (n - 1) as nat);
        lemma_noiseless_step_settled(
            controller,
            noiseless_run(controller, StatsView::empty(capacity), target, work_time, (n - 1) as nat),
            target,
            work_time,
            (n - 1) as nat,
        );
    }
}

/// With a constant target period and a constant work time shorter than it, and a sleep that
/// lasts exactly as long as asked, every frame from the first on takes exactly the target
/// period: the history holds nothing else, and the average frame time equals the target.
pub proof fn lemma_noiseless_pacing_meets_target(
    controller: PacingController,
    capacity: nat,
    target: u64,
    work_time: u64,
    n: nat,
)
    requires
        1 <= capacity <= MAX_CAPACITY,
        work_time < target,
        n >= 1,
    ensures
        ({
            let s = noiseless_run(controller, StatsView::empty(capacity), target, work_time, n);
            &&& s.frametimes.len() == if n < capacity { n } else { capacity }
            &&& forall|i: int| 0 <= i < s.frametimes.len() ==> s.frametimes[i] == target
            &&& forall|i: int| 0 <= i < s.deviations.len() ==> s.deviations[i] == 0
            &&& s.average_frametime() == target
        }),
{
    lemma_noiseless_run_settled(controller, capacity, target, work_time, n);
    let s = noiseless_run(controller, StatsView::empty(capacity), target, work_time, n);
    lemma_sum_constant(s.frametimes, target);
    let k = s.frametimes.len() as int;
    let t = target as int;
    assert((k * t) / k == t) by (nonlinear_arith)
        requires
            k > 0,
    ;
}

/// One frame of a pacer on a noiseless clock: it works `work_time` from the start of its
/// window, begins the frame, sleeps exactly as long as it was told and ends the frame.
pub open spec fn noiseless_frame(v: PacerView, work_time: u64) -> PacerView {
    let begin_at = (v.window_start + work_time) as u64;
    let (mid, sleep) = begin_spec(v, begin_at, None);
    let slept: u64 = match sleep {
        Some(d) => d,
        None => 0,
    };
    end_spec(mid, (begin_at + slept) as u64).0
}

/// The pacer `v` after `n` such frames.
pub open spec fn noiseless_frames(v: PacerView, work_time: u64, n: nat) -> PacerView
    decreases n,
{
    if n == 0 {
        v
    } else {
        noiseless_frame(noiseless_frames(v, work_time, (n - 1) as nat), work_time)
    }
}

proof fn lemma_noiseless_frames_follow_run(v: PacerView, work_time: u64, n: nat)
    requires
        v.limiter.enabled,
        work_time < v.limiter.target_period,
        v.pending is None,
        v.stats == StatsView::empty(v.stats.capacity),
        v.stats.capacity >= 1,
        v.window_start + n * v.limiter.target_period <= u64::MAX,
    ensures
        ({
            let w = noiseless_frames(v, work_time, n);
            &&& w.stats == noiseless_run(
                v.controller,
                v.stats,
                v.limiter.target_period,
                work_time,
                n,
            )
            &&& w.window_start == v.window_start + n * v.limiter.target_period
            &&& w.limiter == v.limiter
            &&& w.controller == v.controller
            &&& w.pending is None
        }),
    decreases n,
{
    let t = v.limiter.target_period;
    if n > 0 {
        let k = (n - 1) as nat;
        assert(v.window_start + k * t <= v.window_start + n * t) by (nonlinear_arith)
            requires
                k + 1 == n,
                t >= 0,
        ;
        assert(k * t + t == n * t) by (nonlinear_arith)
            requires
                k + 1 == n,
        ;
        lemma_noiseless_frames_follow_run(v, work_time, k);
        lemma_noiseless_run_settled(v.controller, v.stats.capacity, t, work_time, k);
        let u = noiseless_frames(v, work_time, k);
        lemma_noiseless_step_settled(v.controller, u.stats, t, work_time, k);
        let begin_at = (u.window_start + work_time) as u64;
        let p = plan_spec(v.controller, u.stats, u.limiter, work_time);
        assert(elapsed_spec(u.window_start, begin_at) == work_time);
        let (mid, sleep) = begin_spec(u, begin_at, None);
        assert(mid.pending == Some(p));
        assert(sleep == Some(p.plan.sleep));
        assert(p.plan.sleep == t - work_time);
        let end_at = (begin_at + p.plan.sleep) as u64;
        assert(end_at == u.window_start + t);
        assert(elapsed_spec(mid.window_start, end_at) == t);
        assert(noiseless_frame(u, work_time) == end_spec(mid, end_at).0);
    } else {
        assert(n * v.limiter.target_period == 0) by (nonlinear_arith)
            requires
                n == 0,
        ;
    }
}

/// A pacer created with no history, kept at a constant enabled target period, whose frames
/// each work a constant time shorter than the target and sleep exactly as long as told, takes
/// exactly the target period for every frame: after any number of frames the history holds
/// nothing else and its average frame time equals the target, as long as the clock does not
/// run past the largest instant.
pub proof fn lemma_pacer_noiseless_meets_target(v: PacerView, work_time: u64, n: nat)
    requires
        v.limiter.enabled,
        work_time < v.limiter.target_period,
        v.pending is None,
        v.stats == StatsView::empty(v.stats.capacity),
        1 <= v.stats.capacity <= MAX_CAPACITY,
        v.window_start + n * v.limiter.target_period <= u64::MAX,
        n >= 1,
    ensures
        ({
            let w = noiseless_frames(v, work_time, n);
            &&& w.window_start == v.window_start + n * v.limiter.target_period
            &&& forall|i: int|
                0 <= i < w.stats.frametimes.len() ==> w.stats.frametimes[i]
                    == v.limiter.target_period
            &&& w.stats.frametimes.len() == if n < v.stats.capacity {
                n
            } else {
                v.stats.capacity
            }
            &&& w.stats.average_frametime() == v.limiter.target_period
        }),
{
    lemma_noiseless_frames_follow_run(v, work_time, n);
    lemma_noiseless_pacing_meets_target(
        v.controller,
        v.stats.capacity,
        v.limiter.target_period,
        work_time,
        n,
    );
}

} // verus!
