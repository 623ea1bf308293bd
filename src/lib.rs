//! The streaming core of a real-time noise-suppression effect: it reframes
//! host blocks of any length into the fixed hops a suppression engine
//! consumes, passes a hop through unchanged when the engine fails on it,
//! hands processed samples back a host block at a time, and guards the
//! session's lifecycle (sample-rate check, initialization, reset).
//!
//! Samples are of any `Copy` type; the arithmetic on them (down-mix, dry/wet
//! blend) and the engine itself live with the caller.

pub mod channels;
pub mod rate;
pub mod reframer;
pub mod session;
