//! The decisions of the encoder thread, which moves captured samples
//! through the codec to the network task: stop on a shutdown request or
//! when the network task's channel is closed, wait while no samples are
//! buffered, forward non-empty encoder output, stop on
//! an encoding error or when the network task is gone, and flush the codec
//! once at the end. The thread performs each action and reports what
//! happened as the next event.
use vstd::prelude::*;

verus! {

/// What the encoder thread observed.
#[derive(Debug, Clone, Copy, PartialEq, Eq, Structural)]
pub enum PumpEvent {
    /// A shutdown request was found before reading.
    ShutdownRequested,
    /// `samples` samples were read from the capture buffer;
    /// `network_closed` tells whether the network task's channel was found
    /// closed at that point.
    Read { samples: usize, network_closed: bool },
    /// The codec produced `bytes` bytes for the samples read.
    Encoded { bytes: usize },
    /// The codec failed.
    EncodeFailed,
    /// The encoded bytes were handed to the network task.
    Sent,
    /// The network task no longer takes packets.
    SendFailed,
}

/// What the encoder thread does next.
#[derive(Debug, Clone, Copy, PartialEq, Eq, Structural)]
pub enum PumpAction {
    /// Check for shutdown, then read from the capture buffer.
    ReadNext,
    /// Nothing was buffered: wait (at most 100 ms) for the capture
    /// callback, then read again.
    Wait,
    /// Encode the samples read.
    Encode,
    /// Hand the encoded bytes to the network task.
    Send,
    /// Leave the loop: flush the codec, send what it gives if that is not
    /// empty, and end.
    Flush,
}

/// The encoder thread's decision on `event`.
pub open spec fn pump_decision(event: PumpEvent) -> PumpAction {
    match event {
        PumpEvent::ShutdownRequested => PumpAction::Flush,
        PumpEvent::Read { samples, network_closed } => if network_closed {
            PumpAction::Flush
        } else if samples == 0 {
            PumpAction::Wait
        } else {
            PumpAction::Encode
        },
        PumpEvent::Encoded { bytes } => if bytes == 0 {
            PumpAction::ReadNext
        } else {
            PumpAction::Send
        },
        PumpEvent::EncodeFailed => PumpAction::Flush,
        PumpEvent::Sent => PumpAction::ReadNext,
        PumpEvent::SendFailed => PumpAction::Flush,
    }
}

/// Decides the encoder thread's next action.
pub fn pump_step(event: PumpEvent) -> (r: PumpAction)
    ensures
        r == pump_decision(event),
{
    match event {
        PumpEvent::ShutdownRequested => PumpAction::Flush,
        PumpEvent::Read { samples, network_closed } => if network_closed {
            PumpAction::Flush
        } else if samples == 0 {
            PumpAction::Wait
        } else {
            PumpAction::Encode
        },
        PumpEvent::Encoded { bytes } => if bytes == 0 {
            PumpAction::ReadNext
        } else {
            PumpAction::Send
        },
        PumpEvent::EncodeFailed => PumpAction::Flush,
        PumpEvent::Sent => PumpAction::ReadNext,
        PumpEvent::SendFailed => PumpAction::Flush,
    }
}

/// Whether the codec's final output is sent: only when it is not empty.
pub fn send_tail(tail_len: usize) -> (r: bool)
    ensures
        r == (tail_len > 0),
{
    tail_len > 0
}

/// The thread leaves its loop (to flush) exactly on a shutdown request, an
/// encoding error, or a network task that is gone (its channel found closed,
/// even while no samples are buffered, or a send refused); empty codec
/// output is never sent.
pub proof fn lemma_pump_stops(event: PumpEvent)
    ensures
        (pump_decision(event) == PumpAction::Flush) <==> (event is ShutdownRequested || event is EncodeFailed
            || event is SendFailed || (event matches PumpEvent::Read { network_closed, .. } && network_closed)),
        event matches PumpEvent::Encoded { bytes } ==> (pump_decision(event) == PumpAction::Send <==> bytes > 0),
{
}

} // verus!
