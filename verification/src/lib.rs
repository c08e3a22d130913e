//! Core of a progressive ray tracer: camera state and input protocol,
//! accumulation control, scene store, GPU buffer layout, and the per-frame
//! recording protocol. All real-valued quantities are carried as IEEE-754
//! bit patterns and never interpreted here; the embedding binary does the
//! floating-point work and the GPU calls, and feeds results back through
//! the narrow setters this crate verifies.
#![allow(unused_imports)]

use vstd::prelude::*;

pub mod camera;
pub mod dispatch;
pub mod encode;
pub mod fbits;
pub mod scene;
pub mod text;
pub mod world;

verus! {

#[verifier::external_type_specification]
#[verifier::external_body]
pub struct ExInstant(std::time::Instant);

/// Relies on `std::time::Instant::now`: an opaque reading of the monotonic
/// clock. Nothing is promised of it; no two calls need agree.
#[verifier::external_body]
fn instant_now() -> std::time::Instant {
    std::time::Instant::now()
}

/// Relies on `Add<Duration> for Instant`: the instant a bounded number of
/// milliseconds later. std documents that the addition panics on overflow
/// of `Instant`'s range; a delay of at most a day keeps any clock the OS
/// reports far from that edge, so the bound stands in `requires`.
#[verifier::external_body]
fn instant_add_millis(t: std::time::Instant, ms: u64) -> std::time::Instant
    requires
        ms <= 86_400_000,
{
    t + std::time::Duration::from_millis(ms)
}

/// The deadline `ms` milliseconds from now, for frame pacing.
pub fn next_frame_time(ms: u64) -> std::time::Instant
    requires
        ms <= 86_400_000,
{
    let now = instant_now();
    instant_add_millis(now, ms)
}

} // verus!
