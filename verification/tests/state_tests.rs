use sada::config::AppConfig;
use sada::state::{AppState, ConnectionHandle, ConnectionStatus, MonitorHandle, RecordingHandle};

fn connection() -> ConnectionHandle {
    let (shutdown_tx, _a) = tokio::sync::mpsc::channel::<()>(1);
    let (metadata_tx, _b) = tokio::sync::mpsc::channel::<String>(16);
    let (encoder_shutdown, _c) = std::sync::mpsc::channel::<()>();
    let (audio_shutdown, _d) = std::sync::mpsc::channel::<()>();
    ConnectionHandle { shutdown_tx, metadata_tx, encoder_shutdown, watcher_shutdown: None, audio_shutdown }
}

fn monitor() -> MonitorHandle {
    MonitorHandle { audio_shutdown: std::sync::mpsc::channel::<()>().0 }
}

#[test]
fn new_state_is_idle() {
    let s = AppState::new(AppConfig::default());
    assert!(!s.is_connected());
    assert!(matches!(s.status, ConnectionStatus::Idle));
    assert!(s.connection.is_none() && s.recording.is_none() && s.monitor.is_none());
    assert_eq!(s.bytes_sent, 0);
}

#[test]
fn monitor_only_starts_when_idle() {
    let mut s = AppState::new(AppConfig::default());
    let plan = s.prepare_monitor();
    assert!(plan.start && plan.stop.is_none());
    s.install_monitor(monitor());
    let plan = s.prepare_monitor();
    assert!(plan.start && plan.stop.is_some());
    assert!(s.monitor.is_none());
    s.mark_connected(std::time::Instant::now());
    let plan = s.prepare_monitor();
    assert!(!plan.start);
    s.set_status(ConnectionStatus::Idle);
    s.begin_recording(RecordingHandle {
        shutdown_tx: std::sync::mpsc::channel::<()>().0,
        audio_shutdown: std::sync::mpsc::channel::<()>().0,
    });
    assert!(!s.prepare_monitor().start);
    s.install_monitor(monitor());
    assert!(s.take_monitor().is_some());
    assert!(s.take_monitor().is_none());
}

#[test]
fn connecting_twice_is_refused() {
    let mut s = AppState::new(AppConfig::default());
    assert!(s.check_can_connect().is_ok());
    s.begin_connection(connection());
    assert!(matches!(s.status, ConnectionStatus::Connecting));
    assert!(s.check_can_connect().is_ok());
    s.mark_connected(std::time::Instant::now());
    assert!(s.is_connected());
    assert_eq!(s.check_can_connect().unwrap_err(), "Already connected");
    let h = s.end_connection();
    assert!(h.is_some());
    assert!(matches!(s.status, ConnectionStatus::Idle));
    assert!(s.start_time.is_none() && s.connection.is_none());
    assert!(s.check_can_connect().is_ok());
}

#[test]
fn disconnect_takes_the_handle() {
    let mut s = AppState::new(AppConfig::default());
    s.begin_connection(connection());
    assert!(s.take_connection().is_some());
    assert!(s.take_connection().is_none());
}

#[test]
fn disconnect_resumes_monitoring() {
    let mut s = AppState::new(AppConfig::default());
    s.begin_connection(connection());
    s.mark_connected(std::time::Instant::now());
    assert!(!s.prepare_monitor().start);
    assert!(s.take_connection().is_some());
    assert!(matches!(s.status, ConnectionStatus::Idle));
    assert!(s.prepare_monitor().start);
}

#[test]
fn recording_is_exclusive_and_resumes_monitor_when_idle() {
    let mut s = AppState::new(AppConfig::default());
    assert_eq!(s.check_can_record().unwrap().sample_rate, 44100);
    s.begin_recording(RecordingHandle {
        shutdown_tx: std::sync::mpsc::channel::<()>().0,
        audio_shutdown: std::sync::mpsc::channel::<()>().0,
    });
    assert_eq!(s.check_can_record().unwrap_err(), "Recording is already active");
    let (h, resume) = s.end_recording();
    assert!(h.is_some() && resume);
    s.mark_connected(std::time::Instant::now());
    let (h, resume) = s.end_recording();
    assert!(h.is_none() && !resume);
}
