use bevy_framepace::{
    deviation, finish_frame, FrameDrop, FramePaceStats, FramePacer, FrameTimer,
    FrametimeResolver, Gains, Limiter, LimiterState, PacingController, SleepPlan,
};

const T60: u64 = 16_667_000;
const WORK: u64 = 5_000_000;

/// One loop iteration on a simulated clock: work, ask for the sleep, sleep it plus
/// `overshoot`, and end the frame. Returns the sleep asked for and the clock after it.
fn iterate(
    pacer: &mut FramePacer,
    now: u64,
    shared: Option<LimiterState>,
    work: u64,
    overshoot: u64,
) -> (Option<u64>, u64, Option<FrameDrop>) {
    let t = now + work;
    match pacer.begin_frame(t, shared) {
        None => (None, t, None),
        Some(sleep) => {
            let woke = t + sleep + overshoot;
            let drop = pacer.end_frame(woke);
            (Some(sleep), woke, drop)
        }
    }
}

fn state(target: u64, enabled: bool) -> Option<LimiterState> {
    Some(LimiterState { target_period: target, enabled })
}

#[test]
fn frame_timer_measures_window() {
    let mut t = FrameTimer::new(100);
    assert_eq!(t.sleep_end(), 100);
    assert_eq!(t.elapsed(350), 250);
    assert_eq!(t.elapsed(50), 0);
    t.reset(400);
    assert_eq!(t.elapsed(401), 1);
}

#[test]
fn plan_on_fresh_stats_sleeps_remaining_time() {
    let c = PacingController::default();
    let s = FramePaceStats::default();
    assert_eq!(c.plan(&s, T60, WORK), SleepPlan { adjustment: 0, sleep: 11_667_000 });
    assert_eq!(c.plan(&s, T60, T60 + 1), SleepPlan { adjustment: 0, sleep: 0 });
}

#[test]
fn plan_formula_exact() {
    let c = PacingController::new(Gains::new(500, 10, 100));
    let mut s = FramePaceStats::new(20);
    s.record(18_000_000, 1_000);
    s.record(18_000_000, 3_000);
    s.set_last_adjustment(200);
    // 200 + (500 * 3000 + 10 * 4000 + 100 * 2000) / 1000 = 200 + 1740
    let p = c.plan(&s, 10_000_000, 4_000_000);
    assert_eq!(p.adjustment, 1_940);
    assert_eq!(p.sleep, 6_000_000 - 1_940);
}

#[test]
fn plan_rounds_correction_toward_zero() {
    let c = PacingController::new(Gains::new(1, 0, 0));
    let mut s = FramePaceStats::new(4);
    s.record(1, -1_999);
    assert_eq!(c.plan(&s, 10_000, 0).adjustment, -1);
    s.record(1, 1_999);
    assert_eq!(c.plan(&s, 10_000, 0).adjustment, 1);
}

#[test]
fn adjustment_clamped_for_extreme_deviations() {
    let c = PacingController::new(Gains::new(i64::MAX, i64::MAX, i64::MIN));
    assert_eq!(c.gains, Gains::new(1_000_000, 1_000_000, -1_000_000));
    for d in [i64::MAX, i64::MIN, 1, -1, 0] {
        let mut s = FramePaceStats::new(4096);
        for _ in 0..50 {
            s.record(u64::MAX, d);
        }
        let target = 16_000_000;
        let p = c.plan(&s, target, 1_000);
        assert!(p.adjustment >= -(target as i128) && p.adjustment <= target as i128);
        assert!(p.sleep <= target);
        if d == i64::MAX {
            assert_eq!(p.adjustment, target as i128);
            assert_eq!(p.sleep, 0);
        } else if d == i64::MIN {
            assert_eq!(p.adjustment, -(target as i128));
            assert_eq!(p.sleep, target);
        }
    }
}

#[test]
fn deviation_saturates() {
    assert_eq!(deviation(10, 4), 6);
    assert_eq!(deviation(4, 10), -6);
    assert_eq!(deviation(u64::MAX, 0), i64::MAX);
    assert_eq!(deviation(0, u64::MAX), i64::MIN);
}

#[test]
fn finish_frame_records_outcome() {
    let mut s = FramePaceStats::new(3);
    finish_frame(&mut s, -70, 1_000, 1_250);
    assert_eq!(s.last_frametime(), 1_250);
    assert_eq!(s.last_deviation(), 250);
    assert_eq!(s.last_adjustment(), -70);
}

#[test]
fn frame_drop_threshold() {
    let c = PacingController::default();
    assert_eq!(c.drop_threshold, 100_000);
    assert!(!c.is_frame_drop(T60 + 100_000, T60));
    assert!(c.is_frame_drop(T60 + 100_001, T60));
    assert!(!c.is_frame_drop(0, T60));
}

#[test]
fn noiseless_pacing_holds_target() {
    let mut pacer = FramePacer::with_defaults(0);
    let mut now = 0;
    for _ in 0..100 {
        let (sleep, woke, drop) = iterate(&mut pacer, now, state(T60, true), WORK, 0);
        assert_eq!(sleep, Some(T60 - WORK));
        assert_eq!(drop, None);
        now = woke;
    }
    let s = pacer.stats();
    assert_eq!(s.len(), 20);
    assert_eq!(s.average_frametime(), T60);
    assert_eq!(s.deviation_sum(), 0);
}

#[test]
fn sixty_hertz_with_five_ms_work() {
    let mut pacer = FramePacer::with_defaults(1_000);
    let mut now = 1_000;
    let mut last_sleep = 0;
    for _ in 0..60 {
        let (sleep, woke, _) = iterate(&mut pacer, now, state(T60, true), WORK, 0);
        last_sleep = sleep.unwrap();
        now = woke;
    }
    let s = pacer.stats();
    let adj = s.last_adjustment();
    assert_eq!(last_sleep as i128, 11_667_000 - adj);
    let avg = s.average_frametime() as i128;
    assert!((avg - T60 as i128).abs() * 100 <= T60 as i128);
}

#[test]
fn disabled_limiter_never_sleeps() {
    let mut pacer = FramePacer::with_defaults(0);
    let mut now = 0;
    for k in 0..30u64 {
        let work = 1_000_000 + k * 700_000;
        let start = now;
        let (sleep, woke, drop) = iterate(&mut pacer, now, state(T60, false), work, 0);
        assert_eq!(sleep, Some(0));
        assert_eq!(drop, None);
        assert_eq!(woke - start, work);
        assert_eq!(pacer.stats().last_frametime(), work);
        now = woke;
    }
}

#[test]
fn switch_manual_to_disabled() {
    let mut resolver = FrametimeResolver::new();
    let mut pacer = FramePacer::with_defaults(0);
    let mut now = 0;
    let manual = Limiter::Manual(33_333_000);
    for _ in 0..10 {
        resolver.update(&manual, None);
        let shared = Some(resolver.state(&manual));
        let (sleep, woke, _) = iterate(&mut pacer, now, shared, WORK, 0);
        assert_eq!(sleep, Some(33_333_000 - WORK));
        now = woke;
    }
    resolver.update(&Limiter::Off, None);
    let shared = Some(resolver.state(&Limiter::Off));
    let (sleep, woke, _) = iterate(&mut pacer, now, shared, WORK, 0);
    assert_eq!(sleep, Some(0));
    assert_eq!(woke - now, WORK);
    assert_eq!(pacer.stats().last_deviation(), WORK as i64 - 33_333_000);
    assert_eq!(pacer.stats().last_frametime(), WORK);
    now = woke;
    let (sleep, _, _) = iterate(&mut pacer, now, None, 2_000_000, 0);
    assert_eq!(sleep, Some(0));
    assert_eq!(pacer.stats().last_frametime(), 2_000_000);
}

#[test]
fn unresolved_refresh_rate_skips_pacing() {
    let mut resolver = FrametimeResolver::new();
    let mut pacer = FramePacer::with_defaults(0);
    let mut now = 0;
    for _ in 0..3 {
        resolver.update(&Limiter::Auto, None);
        assert_eq!(resolver.target_period(), 0);
        let shared = Some(resolver.state(&Limiter::Auto));
        let (sleep, woke, _) = iterate(&mut pacer, now, shared, WORK, 0);
        assert_eq!(sleep, None);
        assert_eq!(pacer.stats().len(), 0);
        assert_eq!(pacer.pending(), None);
        now = woke;
    }
    resolver.update(&Limiter::Auto, Some(T60));
    assert_eq!(resolver.target_period(), T60);
    let shared = Some(resolver.state(&Limiter::Auto));
    let (sleep, _, _) = iterate(&mut pacer, now, shared, WORK, 0);
    assert_eq!(sleep, Some(T60 - WORK));
    assert_eq!(pacer.stats().len(), 1);
    assert_eq!(pacer.stats().last_frametime(), T60);
}

#[test]
fn systematic_overshoot_is_corrected() {
    let overshoot = 2_000_000;
    let mut pacer = FramePacer::with_defaults(0);
    let mut now = 0;
    for _ in 0..40 {
        let (_, woke, _) = iterate(&mut pacer, now, state(T60, true), WORK, overshoot);
        now = woke;
    }
    let s = pacer.stats();
    let avg_dev = s.deviation_sum() / s.len() as i128;
    assert!(avg_dev.abs() * 20 <= overshoot as i128);
    let adj = s.last_adjustment();
    assert!((adj - overshoot as i128).abs() * 20 <= overshoot as i128);
    let avg = s.average_frametime() as i128;
    assert!((avg - T60 as i128).abs() * 100 <= T60 as i128);
}

#[test]
fn frame_drop_reported_only_when_enabled() {
    let mut pacer = FramePacer::with_defaults(0);
    let (sleep, woke, drop) = iterate(&mut pacer, 0, state(T60, true), T60 + 500_000, 0);
    assert_eq!(sleep, Some(0));
    assert_eq!(drop, Some(FrameDrop { actual: T60 + 500_000, target: T60 }));
    let (_, _, drop) = iterate(&mut pacer, woke, state(T60, false), T60 + 500_000, 0);
    assert_eq!(drop, None);
}

#[test]
fn contention_keeps_cached_state() {
    let mut pacer = FramePacer::with_defaults(0);
    let (_, woke, _) = iterate(&mut pacer, 0, state(T60, true), WORK, 0);
    assert_eq!(pacer.limiter_state(), LimiterState { target_period: T60, enabled: true });
    let (sleep, _, _) = iterate(&mut pacer, woke, None, WORK, 0);
    assert_eq!(sleep, Some(T60 - WORK));
}

#[test]
fn end_without_pending_frame_changes_nothing() {
    let mut pacer = FramePacer::with_defaults(10);
    assert_eq!(pacer.end_frame(500), None);
    assert_eq!(pacer.timer().sleep_end(), 10);
    assert_eq!(pacer.stats().len(), 0);
}
