//! The decisions of the level-meter thread: it forwards the newest level at
//! most every 33 ms, reports silence when no level arrived for 100 ms, and
//! stops when the capture side is gone. The level values themselves are
//! floating point and are handled by the thread.
use vstd::prelude::*;

verus! {

/// Shortest time between two emitted levels, in milliseconds (about 30 per
/// second).
pub const EMIT_INTERVAL_MS: u64 = 33;

/// How long the thread waits for a level before it reports silence, in
/// milliseconds.
pub const SILENCE_TIMEOUT_MS: u64 = 100;

/// What the level-meter thread observed.
#[derive(Debug, Clone, Copy, PartialEq, Eq, Structural)]
pub enum MeterEvent {
    /// A level arrived (the newest of those queued), `since_emit_ms`
    /// milliseconds after the last emission.
    Level { since_emit_ms: u64 },
    /// No level arrived within `SILENCE_TIMEOUT_MS`.
    TimedOut,
    /// The capture side closed the channel.
    Closed,
}

/// What the level-meter thread does next.
#[derive(Debug, Clone, Copy, PartialEq, Eq, Structural)]
pub enum MeterAction {
    /// Emit the level (with updated peaks) and restart the interval.
    Emit,
    /// Drop the level: the last emission is too recent.
    Skip,
    /// Emit silence (-60 dB everywhere) and restart the interval.
    EmitSilence,
    /// End the thread.
    Stop,
}

/// The level-meter thread's decision on `event`.
pub open spec fn meter_decision(event: MeterEvent) -> MeterAction {
    match event {
        MeterEvent::Level { since_emit_ms } => if since_emit_ms >= EMIT_INTERVAL_MS {
            MeterAction::Emit
        } else {
            MeterAction::Skip
        },
        MeterEvent::TimedOut => MeterAction::EmitSilence,
        MeterEvent::Closed => MeterAction::Stop,
    }
}

/// Decides the level-meter thread's next action.
pub fn meter_step(event: MeterEvent) -> (r: MeterAction)
    ensures
        r == meter_decision(event),
{
    match event {
        MeterEvent::Level { since_emit_ms } => if since_emit_ms >= EMIT_INTERVAL_MS {
            MeterAction::Emit
        } else {
            MeterAction::Skip
        },
        MeterEvent::TimedOut => MeterAction::EmitSilence,
        MeterEvent::Closed => MeterAction::Stop,
    }
}

} // verus!
