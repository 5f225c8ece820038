//! The application's shared state and the decisions the user commands make
//! on it: whether a monitor, a connection or a recording may start, and what
//! each start and stop leaves behind.
use crate::config::{AppConfig, AudioConfig};
use crate::text::owned;
use vstd::prelude::*;

verus! {

#[verifier::external_type_specification]
#[verifier::external_body]
#[verifier::reject_recursive_types(T)]
pub struct ExStdSender<T>(std::sync::mpsc::Sender<T>);

#[verifier::external_type_specification]
#[verifier::external_body]
#[verifier::reject_recursive_types(T)]
pub struct ExTokioSender<T>(tokio::sync::mpsc::Sender<T>);

#[verifier::external_type_specification]
#[verifier::external_body]
pub struct ExInstant(std::time::Instant);

/// What the user interface shows about the streaming connection.
#[derive(Debug, Clone)]
pub enum ConnectionStatus {
    Idle,
    Connecting,
    Connected,
    Reconnecting { attempt: u32, delay_secs: u64 },
    Error { message: String },
}

/// Signals for the tasks of a live connection: network shutdown, metadata
/// updates, encoder shutdown, the optional metadata-file watcher, and the
/// audio capture thread.
pub struct ConnectionHandle {
    pub shutdown_tx: tokio::sync::mpsc::Sender<()>,
    pub metadata_tx: tokio::sync::mpsc::Sender<String>,
    pub encoder_shutdown: std::sync::mpsc::Sender<()>,
    pub watcher_shutdown: Option<tokio::sync::mpsc::Sender<()>>,
    pub audio_shutdown: std::sync::mpsc::Sender<()>,
}

/// Signals that stop a recording: the file writer and the capture thread.
pub struct RecordingHandle {
    pub shutdown_tx: std::sync::mpsc::Sender<()>,
    pub audio_shutdown: std::sync::mpsc::Sender<()>,
}

/// Signal that stops the level-monitoring capture.
pub struct MonitorHandle {
    pub audio_shutdown: std::sync::mpsc::Sender<()>,
}

pub struct AppState {
    pub config: AppConfig,
    pub connection: Option<ConnectionHandle>,
    pub status: ConnectionStatus,
    pub recording: Option<RecordingHandle>,
    pub monitor: Option<MonitorHandle>,
    pub start_time: Option<std::time::Instant>,
    pub bytes_sent: u64,
}

/// What starting the level monitor decides: the monitor to stop (the one
/// that was running, if any) and whether a new one is to be started.
pub struct MonitorPlan {
    pub stop: Option<MonitorHandle>,
    pub start: bool,
}

impl AppState {
    /// The state at start-up with the loaded configuration: idle, nothing
    /// running.
    pub fn new(config: AppConfig) -> (r: AppState)
        ensures
            r.config == config,
            r.connection is None,
            r.status is Idle,
            r.recording is None,
            r.monitor is None,
            r.start_time is None,
            r.bytes_sent == 0,
    {
        AppState {
            config,
            connection: None,
            status: ConnectionStatus::Idle,
            recording: None,
            monitor: None,
            start_time: None,
            bytes_sent: 0,
        }
    }

    pub open spec fn connected(self) -> bool {
        self.status is Connected
    }

    pub fn is_connected(&self) -> (r: bool)
        ensures
            r == self.connected(),
    {
        match self.status {
            ConnectionStatus::Connected => true,
            _ => false,
        }
    }

    /// Starting the level monitor: the running monitor, if any, is taken out
    /// to be stopped; a new one may start only while neither connected nor
    /// recording (those capture audio themselves).
    pub fn prepare_monitor(&mut self) -> (r: MonitorPlan)
        ensures
            r.stop == old(self).monitor,
            r.start == !(old(self).connected() || old(self).recording is Some),
            final(self).monitor is None,
            final(self).config == old(self).config,
            final(self).connection == old(self).connection,
            final(self).status == old(self).status,
            final(self).recording == old(self).recording,
            final(self).start_time == old(self).start_time,
            final(self).bytes_sent == old(self).bytes_sent,
    {
        let stop = self.monitor.take();
        let start = !(self.is_connected() || self.recording.is_some());
        MonitorPlan { stop, start }
    }

    /// Records the monitor that was started.
    pub fn install_monitor(&mut self, handle: MonitorHandle)
        ensures
            final(self).monitor == Some(handle),
            final(self).config == old(self).config,
            final(self).connection == old(self).connection,
            final(self).status == old(self).status,
            final(self).recording == old(self).recording,
            final(self).start_time == old(self).start_time,
            final(self).bytes_sent == old(self).bytes_sent,
    {
        self.monitor = Some(handle);
    }

    /// Stopping the level monitor: takes it out to be signalled.
    pub fn take_monitor(&mut self) -> (r: Option<MonitorHandle>)
        ensures
            r == old(self).monitor,
            final(self).monitor is None,
            final(self).config == old(self).config,
            final(self).connection == old(self).connection,
            final(self).status == old(self).status,
            final(self).recording == old(self).recording,
            final(self).start_time == old(self).start_time,
            final(self).bytes_sent == old(self).bytes_sent,
    {
        self.monitor.take()
    }

    /// A connection may be requested unless one is already established.
    pub fn check_can_connect(&self) -> (r: Result<(), String>)
        ensures
            !self.connected() ==> r is Ok,
            self.connected() ==> (r matches Err(e) && e@ == "Already connected"@),
    {
        if self.is_connected() {
            Err(owned("Already connected"))
        } else {
            Ok(())
        }
    }

    /// Records a connection whose tasks were started: the status becomes
    /// Connecting and the traffic counters start over.
    pub fn begin_connection(&mut self, handle: ConnectionHandle)
        ensures
            final(self).connection == Some(handle),
            final(self).status is Connecting,
            final(self).start_time is None,
            final(self).bytes_sent == 0,
            final(self).config == old(self).config,
            final(self).recording == old(self).recording,
            final(self).monitor == old(self).monitor,
    {
        self.connection = Some(handle);
        self.status = ConnectionStatus::Connecting;
        self.start_time = None;
        self.bytes_sent = 0;
    }

    /// Publishes a new connection status.
    pub fn set_status(&mut self, status: ConnectionStatus)
        ensures
            final(self).status == status,
            final(self).config == old(self).config,
            final(self).connection == old(self).connection,
            final(self).recording == old(self).recording,
            final(self).monitor == old(self).monitor,
            final(self).start_time == old(self).start_time,
            final(self).bytes_sent == old(self).bytes_sent,
    {
        self.status = status;
    }

    /// The server accepted the stream at `start`.
    pub fn mark_connected(&mut self, start: std::time::Instant)
        ensures
            final(self).status is Connected,
            final(self).start_time == Some(start),
            final(self).config == old(self).config,
            final(self).connection == old(self).connection,
            final(self).recording == old(self).recording,
            final(self).monitor == old(self).monitor,
            final(self).bytes_sent == old(self).bytes_sent,
    {
        self.status = ConnectionStatus::Connected;
        self.start_time = Some(start);
    }

    /// Disconnecting at the user's request: takes the connection out to be
    /// signalled and leaves the connected state at once (status Idle, no
    /// start time), so that level monitoring can resume; the network session
    /// then winds down.
    pub fn take_connection(&mut self) -> (r: Option<ConnectionHandle>)
        ensures
            r == old(self).connection,
            final(self).connection is None,
            final(self).status is Idle,
            !final(self).connected(),
            final(self).start_time is None,
            final(self).config == old(self).config,
            final(self).recording == old(self).recording,
            final(self).monitor == old(self).monitor,
            final(self).bytes_sent == old(self).bytes_sent,
    {
        let handle = self.connection.take();
        self.status = ConnectionStatus::Idle;
        self.start_time = None;
        handle
    }

    /// The network session has ended: the connection (if still held) is
    /// taken out so that its capture and watcher tasks can be stopped, and
    /// the state returns to Idle.
    pub fn end_connection(&mut self) -> (r: Option<ConnectionHandle>)
        ensures
            r == old(self).connection,
            final(self).connection is None,
            final(self).status is Idle,
            final(self).start_time is None,
            !final(self).connected(),
            final(self).config == old(self).config,
            final(self).recording == old(self).recording,
            final(self).monitor == old(self).monitor,
            final(self).bytes_sent == old(self).bytes_sent,
    {
        let handle = self.connection.take();
        self.status = ConnectionStatus::Idle;
        self.start_time = None;
        handle
    }

    /// A recording may start unless one is already active; the audio
    /// settings it captures with are those of the configuration.
    pub fn check_can_record(&self) -> (r: Result<&AudioConfig, String>)
        ensures
            self.recording is None ==> (r matches Ok(a) && *a == self.config.audio),
            self.recording is Some ==> (r matches Err(e) && e@ == "Recording is already active"@),
    {
        if self.recording.is_some() {
            Err(owned("Recording is already active"))
        } else {
            Ok(&self.config.audio)
        }
    }

    /// Records a recording that was started.
    pub fn begin_recording(&mut self, handle: RecordingHandle)
        ensures
            final(self).recording == Some(handle),
            final(self).config == old(self).config,
            final(self).connection == old(self).connection,
            final(self).status == old(self).status,
            final(self).monitor == old(self).monitor,
            final(self).start_time == old(self).start_time,
            final(self).bytes_sent == old(self).bytes_sent,
    {
        self.recording = Some(handle);
    }

    /// Stopping the recording: takes it out to be signalled, and says
    /// whether level monitoring resumes (only while not connected).
    pub fn end_recording(&mut self) -> (r: (Option<RecordingHandle>, bool))
        ensures
            r.0 == old(self).recording,
            r.1 == !old(self).connected(),
            final(self).recording is None,
            final(self).config == old(self).config,
            final(self).connection == old(self).connection,
            final(self).status == old(self).status,
            final(self).monitor == old(self).monitor,
            final(self).start_time == old(self).start_time,
            final(self).bytes_sent == old(self).bytes_sent,
    {
        let handle = self.recording.take();
        (handle, !self.is_connected())
    }
}

} // verus!
