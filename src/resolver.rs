use vstd::prelude::*;

use crate::limiter::{Limiter, LimiterState};

verus! {

/// Displays report whole refresh rates; half a hertz is taken off before the period is
/// derived, so that a rate rounded up never yields a period shorter than the real one.
pub const ROUNDING_MILLIHERTZ: u32 = 500;

/// Nanoseconds in one second, times one thousand: the numerator for a rate in millihertz.
pub const NANOS_PER_SEC_MILLI: u64 = 1_000_000_000_000;

/// Whether a display reporting `millihertz` gives a usable refresh period.
pub open spec fn usable_rate(millihertz: u32) -> bool {
    millihertz > ROUNDING_MILLIHERTZ
}

/// The refresh period in nanoseconds of a display reporting `millihertz`, after taking half a
/// hertz off the rate, rounded to the nearest nanosecond (halves up).
pub open spec fn period_of_rate(millihertz: u32) -> int {
    let d = millihertz - ROUNDING_MILLIHERTZ;
    (2 * NANOS_PER_SEC_MILLI + d) / (2 * d)
}

/// The refresh period of a display reporting `millihertz`, or `None` when the rate is too low
/// to give one.
pub fn frametime_from_millihertz(millihertz: u32) -> (r: Option<u64>)
    ensures
        r == (if usable_rate(millihertz) {
            Some(period_of_rate(millihertz) as u64)
        } else {
            None::<u64>
        }),
        r matches Some(p) ==> p == period_of_rate(millihertz) && p >= 1,
{
    if millihertz > ROUNDING_MILLIHERTZ {
        let d = (millihertz - ROUNDING_MILLIHERTZ) as u64;
        proof {
            let x = NANOS_PER_SEC_MILLI as int;
            let di = d as int;
            assert((2 * x + di) / (2 * di) <= 2 * x + di) by (nonlinear_arith)
                requires
                    di >= 1,
                    x >= 0,
            ;
            assert((2 * x + di) / (2 * di) >= 1) by (nonlinear_arith)
                requires
                    1 <= di <= x,
            ;
        }
        Some((2 * NANOS_PER_SEC_MILLI + d) / (2 * d))
    } else {
        None
    }
}

proof fn lemma_period_antitone(a: u32, b: u32)
    requires
        usable_rate(a),
        usable_rate(b),
        a <= b,
    ensures
        period_of_rate(b) <= period_of_rate(a),
{
    let x = NANOS_PER_SEC_MILLI as int;
    let da = a - ROUNDING_MILLIHERTZ;
    let db = b - ROUNDING_MILLIHERTZ;
    let q = (2 * x + db) / (2 * db);
    assert(q * (2 * db) <= 2 * x + db) by (nonlinear_arith)
        requires
            db >= 1,
            q == (2 * x + db) / (2 * db),
    ;
    if q >= 1 {
        assert((2 * q - 1) * da <= (2 * q - 1) * db) by (nonlinear_arith)
            requires
                q >= 1,
                da <= db,
        ;
        assert(q * (2 * da) <= 2 * x + da) by (nonlinear_arith)
            requires
                (2 * q - 1) * da <= (2 * q - 1) * db,
                q * (2 * db) <= 2 * x + db,
        ;
        assert(q <= (2 * x + da) / (2 * da)) by (nonlinear_arith)
            requires
                da >= 1,
                q * (2 * da) <= 2 * x + da,
        ;
    } else {
        assert(0 <= (2 * x + da) / (2 * da)) by (nonlinear_arith)
            requires
                da >= 1,
                x >= 0,
        ;
    }
}

/// The target period for displays reporting `refresh_millihertz`: the shortest refresh period
/// among them, that of the fastest display, so that no display keeps missing its refresh.
/// `None` when no display reports a usable rate.
pub fn detect_frametime(refresh_millihertz: &Vec<u32>) -> (r: Option<u64>)
    ensures
        r is None <==> (forall|i: int|
            0 <= i < refresh_millihertz@.len() ==> !usable_rate(#[trigger] refresh_millihertz@[i])),
        r matches Some(p) ==> {
            &&& exists|i: int|
                0 <= i < refresh_millihertz@.len() && usable_rate(refresh_millihertz@[i]) && p
                    == period_of_rate(#[trigger] refresh_millihertz@[i])
            &&& forall|i: int|
                0 <= i < refresh_millihertz@.len() && usable_rate(#[trigger] refresh_millihertz@[i])
                    ==> p <= period_of_rate(refresh_millihertz@[i])
        },
{
    let rates = refresh_millihertz;
    let mut best: Option<u32> = None;
    let mut i: usize = 0;
    while i < rates.len()
        invariant
            i <= rates@.len(),
            best is None <==> (forall|j: int| 0 <= j < i ==> !usable_rate(#[trigger] rates@[j])),
            best matches Some(b) ==> {
                &&& usable_rate(b)
                &&& exists|j: int| 0 <= j < i && rates@[j] == b
                &&& forall|j: int| 0 <= j < i && usable_rate(#[trigger] rates@[j]) ==> rates@[j] <= b
            },
        decreases rates@.len() - i,
    {
        let m = rates[i];
        if m > ROUNDING_MILLIHERTZ {
            match best {
                None => {
                    best = Some(m);
                },
                Some(b) => {
                    if m > b {
                        best = Some(m);
                    }
                },
            }
        }
        i = i + 1;
    }
    match best {
        None => None,
        Some(b) => {
            let r = frametime_from_millihertz(b);
            proof {
                let p = period_of_rate(b);
                let j = choose|j: int| 0 <= j < rates@.len() && rates@[j] == b;
                assert(usable_rate(rates@[j]) && p == period_of_rate(rates@[j]));
                assert forall|k: int|
                    0 <= k < rates@.len() && usable_rate(#[trigger] rates@[k]) implies p
                    <= period_of_rate(rates@[k]) by {
                    lemma_period_antitone(rates@[k], b);
                }
            }
            r
        },
    }
}

/// The period that `limiter` asks for, given what the refresh-rate query returned. `None` means
/// that there is nothing to change: the limiter is off, no display is known yet, or the period
/// asked for is zero, which is no valid period and is turned down.
pub open spec fn resolve_spec(limiter: Limiter, detected: Option<u64>) -> Option<u64> {
    let requested = match limiter {
        Limiter::Auto => detected,
        Limiter::Manual(p) => Some(p),
        Limiter::Off => None,
    };
    match requested {
        Some(p) => if p > 0 {
            Some(p)
        } else {
            None
        },
        None => None,
    }
}

/// The period that `limiter` asks for: the detected refresh period when automatic (nothing
/// while no display is known), the manual period, or nothing when off. A zero period is
/// turned down.
pub fn resolve(limiter: &Limiter, detected: Option<u64>) -> (r: Option<u64>)
    ensures
        r == resolve_spec(*limiter, detected),
        r matches Some(p) ==> p > 0,
{
    let requested = match limiter {
        Limiter::Auto => detected,
        Limiter::Manual(p) => Some(*p),
        Limiter::Off => None,
    };
    match requested {
        Some(p) => if p > 0 {
            Some(p)
        } else {
            None
        },
        None => None,
    }
}

/// Turns the configured limiter and the refresh-rate query into the target period, keeping
/// the last one whenever the limiter resolves to nothing. Zero means not resolved yet.
pub struct FrametimeResolver {
    target_period: u64,
}

impl FrametimeResolver {
    pub closed spec fn target(&self) -> u64 {
        self.target_period
    }

    /// A resolver that has not resolved any period yet.
    pub fn new() -> (r: Self)
        ensures
            r.target() == 0,
    {
        FrametimeResolver { target_period: 0 }
    }

    pub fn target_period(&self) -> (r: u64)
        ensures
            r == self.target(),
    {
        self.target_period
    }

    /// Re-resolves the target period; returns whether it changed.
    pub fn update(&mut self, limiter: &Limiter, detected: Option<u64>) -> (changed: bool)
        ensures
            final(self).target() == (match resolve_spec(*limiter, detected) {
                Some(p) => p,
                None => old(self).target(),
            }),
            changed == (final(self).target() != old(self).target()),
            final(self).target() > 0 || final(self).target() == old(self).target(),
    {
        match resolve(limiter, detected) {
            Some(p) => {
                if p != self.target_period {
                    self.target_period = p;
                    true
                } else {
                    false
                }
            },
            None => false,
        }
    }

    /// Whether the refresh-rate query is worth making for `limiter`: only in automatic mode, and
    /// only while no period is known or after the configuration or the displays changed.
    pub fn needs_query(&self, limiter: &Limiter, changed: bool) -> (r: bool)
        ensures
            r == (*limiter is Auto && (changed || self.target() == 0)),
    {
        matches!(limiter, Limiter::Auto) && (changed || self.target_period == 0)
    }

    /// The state to publish to the pacing context for `limiter`.
    pub fn state(&self, limiter: &Limiter) -> (r: LimiterState)
        ensures
            r == (LimiterState { target_period: self.target(), enabled: !(*limiter is Off) }),
    {
        LimiterState { target_period: self.target_period, enabled: limiter.is_enabled() }
    }
}

impl Default for FrametimeResolver {
    fn default() -> (r: Self)
        ensures
            r.target() == 0,
    {
        FrametimeResolver::new()
    }
}

} // verus!
