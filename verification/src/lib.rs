//! A live telemetry dashboard engine for a racing simulator.
//!
//! The library decodes per-tick telemetry documents received over an
//! unreliable datagram transport and turns them into bounded, stateful
//! terminal gauges: a tachometer, tyre and brake thermal maps, a lap-time
//! panel and an ambient thermometer.  The surrounding process (socket,
//! terminal, timing) lives outside the library; everything here is pure
//! state and rendering logic with verified contracts.

pub mod connection;
pub mod dashboard;
pub mod decode;
pub mod json;
pub mod samples;
pub mod telemetry;
pub mod text;
pub mod tui_blocks;

use vstd::prelude::*;

verus! {

/// Raw gear values are 0-based with 0 meaning reverse; the displayed gear
/// collapses neutral and first gear by subtracting one from any gear of at
/// least one.
pub open spec fn spec_display_gear(g: int) -> int {
    if g >= 1 {
        g - 1
    } else {
        0
    }
}

/// Maps a raw gear value to the gear digit shown on the tachometer.
pub fn display_gear(g: u64) -> (shown: u64)
    ensures
        shown == spec_display_gear(g as int),
{
    if g >= 1 {
        g - 1
    } else {
        0
    }
}

/// The displayed gear is never negative, whatever the raw gear value.
pub proof fn lemma_display_gear_nonnegative(g: int)
    ensures
        spec_display_gear(g) >= 0,
{
}

} // verus!
