use vstd::prelude::*;

verus! {

/// Nanoseconds in one second.
pub const NANOS_PER_SEC: u64 = 1_000_000_000;

/// One second divided by `framerate`, in nanoseconds, rounded to the nearest (halves up).
pub open spec fn period_of_framerate(framerate: u64) -> int {
    (2 * NANOS_PER_SEC + framerate) / (2 * framerate as int)
}

/// Configures the frame limiting technique.
#[derive(Debug, Clone, Copy, PartialEq, Eq, Structural)]
pub enum Limiter {
    /// Follows the refresh period of the fastest display, updating when displays change.
    Auto,
    /// A fixed target period in nanoseconds. It should be no shorter than the display's
    /// refresh period.
    Manual(u64),
    /// No frame limiting.
    Off,
}

impl Limiter {
    /// `true` unless the limiter is [`Limiter::Off`].
    pub fn is_enabled(&self) -> (r: bool)
        ensures
            r == !(*self is Off),
    {
        !matches!(self, Limiter::Off)
    }

    /// A manual limiter holding `framerate` frames per second: its period is one second divided
    /// by the rate, rounded to the nearest nanosecond (halves up). Rates up to one per
    /// nanosecond give a period of at least one nanosecond.
    pub fn from_framerate(framerate: u64) -> (r: Limiter)
        requires
            0 < framerate <= NANOS_PER_SEC,
        ensures
            r == Limiter::Manual(period_of_framerate(framerate) as u64),
            r matches Limiter::Manual(p) && p >= 1,
    {
        let f = framerate;
        proof {
            let n = NANOS_PER_SEC as int;
            let fi = f as int;
            assert((2 * n + fi) / (2 * fi) >= 1) by (nonlinear_arith)
                requires
                    0 < fi <= n,
            ;
            assert((2 * n + fi) / (2 * fi) <= 2 * n + fi) by (nonlinear_arith)
                requires
                    0 < fi <= n,
            ;
        }
        Limiter::Manual((2 * NANOS_PER_SEC + f) / (2 * f))
    }
}

impl Default for Limiter {
    fn default() -> (r: Self)
        ensures
            r == Limiter::Auto,
    {
        Limiter::Auto
    }
}

/// Frame pacing configuration, owned by the configuration context.
#[derive(Debug, Clone, Copy, PartialEq, Eq, Structural)]
pub struct FramepaceSettings {
    /// The frame limiting strategy.
    pub limiter: Limiter,
}

impl FramepaceSettings {
    /// These settings with `limiter` in place of their own.
    pub fn with_limiter(self, limiter: Limiter) -> (r: Self)
        ensures
            r == (FramepaceSettings { limiter, ..self }),
    {
        let mut s = self;
        s.limiter = limiter;
        s
    }
}

impl Default for FramepaceSettings {
    fn default() -> (r: Self)
        ensures
            r.limiter == Limiter::Auto,
    {
        FramepaceSettings { limiter: Limiter::Auto }
    }
}

/// What the pacing context knows of the configuration: the resolved target period, zero while
/// unresolved, and whether the limiter is on.
#[derive(Debug, Clone, Copy, PartialEq, Eq, Structural)]
pub struct LimiterState {
    pub target_period: u64,
    pub enabled: bool,
}

impl LimiterState {
    /// The state before any configuration was seen: enabled, with no target yet.
    pub fn unresolved() -> (r: Self)
        ensures
            r == (LimiterState { target_period: 0, enabled: true }),
    {
        LimiterState { target_period: 0, enabled: true }
    }

    pub fn is_enabled(&self) -> (r: bool)
        ensures
            r == self.enabled,
    {
        self.enabled
    }

    /// Whether a target period is known, so that frames can be paced.
    pub fn is_resolved(&self) -> (r: bool)
        ensures
            r == (self.target_period > 0),
    {
        self.target_period > 0
    }

    /// Takes in the result of a non-blocking read of the shared state: a fresh value replaces
    /// the cached one, and a read that met contention keeps the cached one.
    pub fn observe(&mut self, read: Option<LimiterState>)
        ensures
            *final(self) == (match read {
                Some(s) => s,
                None => *old(self),
            }),
    {
        if let Some(s) = read {
            *self = s;
        }
    }
}

impl Default for LimiterState {
    fn default() -> (r: Self)
        ensures
            r == (LimiterState { target_period: 0, enabled: true }),
    {
        LimiterState::unresolved()
    }
}

} // verus!
