//! Recording the captured audio to a WAV file: the file format lives in
//! `writer`; this module holds the session handle and the resolution of
//! `~`-relative output paths.
pub mod writer;

use crate::text::owned;
use vstd::prelude::*;
use vstd::string::*;

verus! {

/// Signals that stop a running recording: the file-writing thread and the
/// capture thread.
pub struct RecordingSession {
    pub shutdown_tx: std::sync::mpsc::Sender<()>,
    pub audio_shutdown_tx: std::sync::mpsc::Sender<()>,
}

/// For a path starting with `~`, the part to resolve against the home
/// directory: what follows the `~`, without one leading `/`. Other paths are
/// used as they are.
pub open spec fn home_relative(path: Seq<char>) -> Option<Seq<char>> {
    if path.len() > 0 && path[0] == '~' {
        let rest = path.drop_first();
        Some(
            if rest.len() > 0 && rest[0] == '/' {
                rest.drop_first()
            } else {
                rest
            },
        )
    } else {
        None
    }
}

/// Splits off the home-directory prefix of a recording path.
pub fn home_relative_path(path: &str) -> (r: Option<String>)
    ensures
        r matches Some(rel) ==> home_relative(path@) == Some(rel@),
        r is None ==> home_relative(path@) is None,
{
    let n = path.unicode_len();
    if n > 0 && path.get_char(0) == '~' {
        if n > 1 && path.get_char(1) == '/' {
            let rest = path.substring_char(2, n);
            assert(rest@ =~= path@.drop_first().drop_first());
            Some(owned(rest))
        } else {
            let rest = path.substring_char(1, n);
            assert(rest@ =~= path@.drop_first());
            Some(owned(rest))
        }
    } else {
        None
    }
}

/// What the file-writing thread of a recording observed.
#[derive(Debug, Clone, Copy, PartialEq, Eq, Structural)]
pub enum RecorderEvent {
    /// A block of samples arrived.
    Samples,
    /// The block was written to the file.
    Written,
    /// Writing the block failed.
    WriteFailed,
    /// No block arrived for 100 ms; `shutdown_requested` tells whether a
    /// stop was requested meanwhile.
    TimedOut { shutdown_requested: bool },
    /// The capture side closed the channel.
    Disconnected,
}

/// What the file-writing thread does next.
#[derive(Debug, Clone, Copy, PartialEq, Eq, Structural)]
pub enum RecorderAction {
    /// Wait (at most 100 ms) for the next block.
    Receive,
    /// Write the block that arrived.
    Write,
    /// Leave the loop: write the blocks still queued, then rewrite the
    /// header with the final data size.
    Finish,
}

/// The file-writing thread's decision on `event`: a stop request is only
/// looked at when no samples are coming, so queued samples are written
/// first.
pub open spec fn recorder_decision(event: RecorderEvent) -> RecorderAction {
    match event {
        RecorderEvent::Samples => RecorderAction::Write,
        RecorderEvent::Written => RecorderAction::Receive,
        RecorderEvent::WriteFailed => RecorderAction::Finish,
        RecorderEvent::TimedOut { shutdown_requested } => if shutdown_requested {
            RecorderAction::Finish
        } else {
            RecorderAction::Receive
        },
        RecorderEvent::Disconnected => RecorderAction::Finish,
    }
}

/// Decides the file-writing thread's next action.
pub fn recorder_step(event: RecorderEvent) -> (r: RecorderAction)
    ensures
        r == recorder_decision(event),
{
    match event {
        RecorderEvent::Samples => RecorderAction::Write,
        RecorderEvent::Written => RecorderAction::Receive,
        RecorderEvent::WriteFailed => RecorderAction::Finish,
        RecorderEvent::TimedOut { shutdown_requested } => if shutdown_requested {
            RecorderAction::Finish
        } else {
            RecorderAction::Receive
        },
        RecorderEvent::Disconnected => RecorderAction::Finish,
    }
}

} // verus!
