//! The sound level while no recording runs.
use vstd::prelude::*;

use crate::audio::recording::RecordingPhase;

verus! {

/// How often the level is looked at.
pub const METER_TICK_MS: u64 = 33;

/// Whether a measured level is published: not while a recording, which publishes its own, is
/// running or being processed.
pub fn idle_level_published(phase: RecordingPhase) -> (r: bool)
    ensures
        r == !(phase == RecordingPhase::Recording || phase == RecordingPhase::Processing),
{
    match phase {
        RecordingPhase::Recording | RecordingPhase::Processing => false,
        _ => true,
    }
}

/// The gain of the microphone in percent, between a quarter and three times.
pub fn input_gain_percent(requested: u16) -> (r: u16)
    ensures
        r == (if requested < 25 {
            25
        } else if requested > 300 {
            300
        } else {
            requested
        }),
{
    if requested < 25 {
        25
    } else if requested > 300 {
        300
    } else {
        requested
    }
}

/// The level that stands for the levels measured since the last look: the newest of them, or, if
/// there are none, the one before.
pub fn latest_level<T: Copy>(previous: Option<T>, measured: &Vec<T>) -> (r: Option<T>)
    ensures
        r == (if measured@.len() > 0 {
            Some(measured@.last())
        } else {
            previous
        }),
{
    if measured.len() > 0 {
        Some(measured[measured.len() - 1])
    } else {
        previous
    }
}

} // verus!
