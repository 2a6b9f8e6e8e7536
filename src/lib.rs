//! Frame pacing for a real-time update/render loop.
//!
//! The loop is slept right before it starts collecting input, so that the time from input to
//! presentation stays short while the frame rate is held to a target period. This crate holds the
//! decisions of that control loop; the caller owns the clock, the sleep primitive and the locks.
//!
//! All durations and instants are integer nanoseconds.

mod controller;
mod laws;
mod limiter;
mod pacer;
mod resolver;
mod ring;
mod stats;

pub use controller::{
    deviation, finish_frame, Gains, PacingController, SleepPlan, DEFAULT_DERIVATIVE,
    DEFAULT_DROP_THRESHOLD, DEFAULT_INTEGRAL, DEFAULT_PROPORTIONAL, GAIN_SCALE, MAX_GAIN,
};
pub use laws::{
    lemma_noiseless_pacing_meets_target, lemma_pacer_noiseless_meets_target, noiseless_frame,
    noiseless_frames, noiseless_run, noiseless_step,
};
pub use limiter::{FramepaceSettings, Limiter, LimiterState, NANOS_PER_SEC};
pub use pacer::{
    begin_spec, end_spec, FrameDrop, FramePacer, FrameTimer, PacerView, PendingFrame,
};
pub use resolver::{detect_frametime, frametime_from_millihertz, resolve, FrametimeResolver};
pub use ring::RingBuffer;
pub use stats::{FramePaceStats, StatsView, DEFAULT_HISTORY, MAX_ADJUSTMENT, MAX_CAPACITY};
