use sada::config::{
    complete_loaded_config, config_from_stored, default_server_name, default_username,
    generate_uuid, migrate_legacy_config, server_id_from_millis, AppConfig, AudioConfig, Codec,
    LegacyAppConfig, MetadataConfig, RecordingConfig, RecordingFormat, ServerConfig, ServerType,
};

fn server(id: &str, name: &str) -> ServerConfig {
    let mut s = ServerConfig::default();
    s.id = id.to_string();
    s.name = name.to_string();
    s
}

#[test]
fn default_server_has_documented_settings() {
    let s = ServerConfig::default();
    assert!(s.id.starts_with("srv_"));
    assert_eq!(s.name, "My Server");
    assert_eq!(s.server_type, ServerType::Icecast);
    assert_eq!(s.host, "localhost");
    assert_eq!(s.port, 8000);
    assert_eq!(s.mount, "/stream");
    assert_eq!(s.source_password, "hackme");
    assert_eq!(s.admin_password, "admin");
    assert_eq!(s.username, "source");
    assert_eq!(s.stream_name, "My Stream");
    assert!(!s.public && !s.tls && !s.legacy_icecast);
    assert!(s.stream_url.is_empty() && s.custom_listener_url.is_empty());
}

#[test]
fn default_app_config_selects_its_only_server() {
    let c = AppConfig::default();
    assert_eq!(c.servers.len(), 1);
    assert_eq!(c.selected_server_id, c.servers[0].id);
    assert_eq!(c.audio.sample_rate, 44100);
    assert_eq!(c.audio.channels, 2);
    assert_eq!(c.audio.codec, Codec::MP3);
    assert_eq!(c.audio.bitrate_kbps, 128);
    assert!(c.audio.device_name.is_none());
    assert!(!c.recording.enabled);
    assert_eq!(c.recording.format, RecordingFormat::Wav);
    assert_eq!(c.metadata.poll_interval_secs, 5);
}

#[test]
fn default_names() {
    assert_eq!(default_server_name(), "My Server");
    assert_eq!(default_username(), "source");
}

#[test]
fn server_ids_render_milliseconds_in_decimal() {
    assert_eq!(server_id_from_millis(0), "srv_0");
    assert_eq!(server_id_from_millis(1234), "srv_1234");
    assert_eq!(server_id_from_millis(1700000000123), "srv_1700000000123");
    let id = generate_uuid();
    assert!(id.starts_with("srv_"));
    assert!(id[4..].chars().all(|c| c.is_ascii_digit()));
    assert!(id.len() > 4);
}

#[test]
fn selected_server_prefers_matching_id_then_first() {
    let mut c = AppConfig::default();
    c.servers = vec![server("a", "A"), server("b", "B"), server("b", "B2")];
    c.selected_server_id = "b".to_string();
    assert_eq!(c.selected_server().name, "B");
    c.selected_server_id = "zzz".to_string();
    assert_eq!(c.selected_server().name, "A");
}

#[test]
fn loading_adds_a_server_and_selects_the_first() {
    let mut stored = AppConfig::default();
    stored.servers = vec![];
    stored.selected_server_id = String::new();
    stored.audio.bitrate_kbps = 320;
    let c = complete_loaded_config(stored);
    assert_eq!(c.servers.len(), 1);
    assert_eq!(c.selected_server_id, c.servers[0].id);
    assert_eq!(c.servers[0].host, "localhost");
    assert_eq!(c.audio.bitrate_kbps, 320);

    let mut stored = AppConfig::default();
    stored.servers = vec![server("x", "X"), server("y", "Y")];
    stored.selected_server_id = String::new();
    let c = complete_loaded_config(stored);
    assert_eq!(c.servers.len(), 2);
    assert_eq!(c.selected_server_id, "x");

    let mut stored = AppConfig::default();
    stored.servers = vec![server("x", "X"), server("y", "Y")];
    stored.selected_server_id = "y".to_string();
    let c = complete_loaded_config(stored);
    assert_eq!(c.selected_server_id, "y");
}

#[test]
fn legacy_config_is_migrated() {
    let old = LegacyAppConfig {
        server: Some(server("legacy", "My Server")),
        audio: Some(AudioConfig {
            device_name: Some("mic".to_string()),
            sample_rate: 48000,
            channels: 1,
            codec: Codec::Opus,
            bitrate_kbps: 96,
        }),
        recording: None,
        metadata: Some(MetadataConfig {
            update_from_file: true,
            file_path: "/tmp/np.txt".to_string(),
            poll_interval_secs: 2,
        }),
    };
    let c = migrate_legacy_config(old);
    assert_eq!(c.servers.len(), 1);
    assert_eq!(c.servers[0].id, "legacy");
    assert_eq!(c.servers[0].name, "Default Server");
    assert_eq!(c.selected_server_id, "legacy");
    assert_eq!(c.audio.sample_rate, 48000);
    assert_eq!(c.audio.codec, Codec::Opus);
    assert!(!c.recording.enabled);
    assert!(c.metadata.update_from_file);

    let old = LegacyAppConfig { server: Some(server("k", "")), audio: None, recording: None, metadata: None };
    assert_eq!(migrate_legacy_config(old).servers[0].name, "Default Server");
    let old = LegacyAppConfig { server: Some(server("k", "Studio")), audio: None, recording: None, metadata: None };
    assert_eq!(migrate_legacy_config(old).servers[0].name, "Studio");

    let old = LegacyAppConfig { server: None, audio: None, recording: Some(RecordingConfig {
        enabled: true, output_dir: "~/rec".to_string(), format: RecordingFormat::Mp3, split_hours: Some(2) }), metadata: None };
    let c = migrate_legacy_config(old);
    assert_eq!(c.servers[0].name, "My Server");
    assert_eq!(c.selected_server_id, c.servers[0].id);
    assert_eq!(c.recording.format, RecordingFormat::Mp3);
    assert_eq!(c.recording.split_hours, Some(2));
}

#[test]
fn stored_config_prefers_current_layout() {
    let mut current = AppConfig::default();
    current.servers = vec![server("cur", "Current")];
    current.selected_server_id = "cur".to_string();
    let legacy = LegacyAppConfig { server: Some(server("old", "Old")), audio: None, recording: None, metadata: None };
    let c = config_from_stored(Some(current), Some(legacy.clone()));
    assert_eq!(c.selected_server_id, "cur");
    let c = config_from_stored(None, Some(legacy));
    assert_eq!(c.selected_server_id, "old");
    let c = config_from_stored(None, None);
    assert_eq!(c.servers.len(), 1);
    assert_eq!(c.servers[0].name, "My Server");
}

#[test]
fn old_layout_read_as_current_is_still_migrated() {
    // An old-format file parses in the current layout with no servers.
    let mut current = AppConfig::default();
    current.servers = Vec::new();
    current.selected_server_id = String::new();
    let mut audio = AudioConfig::default();
    audio.bitrate_kbps = 192;
    let legacy = LegacyAppConfig {
        server: Some(server("old", "My Server")),
        audio: Some(audio.clone()),
        recording: None,
        metadata: None,
    };
    let c = config_from_stored(Some(current.clone()), Some(legacy));
    assert_eq!(c.servers.len(), 1);
    assert_eq!(c.servers[0].id, "old");
    assert_eq!(c.servers[0].name, "Default Server");
    assert_eq!(c.selected_server_id, "old");
    assert_eq!(c.audio.bitrate_kbps, 192);
    // Without a legacy server the current reading is completed instead.
    let empty = LegacyAppConfig { server: None, audio: None, recording: None, metadata: None };
    let c = config_from_stored(Some(current), Some(empty));
    assert_eq!(c.servers.len(), 1);
    assert_eq!(c.selected_server_id, c.servers[0].id);
}

#[test]
fn clock_before_epoch_gives_server_zero() {
    assert_eq!(sada::config::server_id_for_clock(None), "srv_0");
    assert_eq!(sada::config::server_id_for_clock(Some(1712345678901)), "srv_1712345678901");
}
