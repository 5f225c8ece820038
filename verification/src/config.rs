//! Application configuration: the servers the user can stream to, the audio
//! capture and codec settings, recording and metadata options, and how a
//! stored configuration (current or legacy layout) becomes a usable one.
use crate::text::{decimal, owned, push_decimal, same_text};
use std::time::{Duration, SystemTime};
use vstd::prelude::*;

verus! {

#[verifier::external_type_specification]
#[verifier::external_body]
pub struct ExSystemTime(SystemTime);

/// `SystemTime::now()`: the current wall-clock time. Nothing is claimed of
/// the value.
#[verifier::external_body]
fn system_now() -> SystemTime {
    SystemTime::now()
}

/// `SystemTime::duration_since(UNIX_EPOCH)`, with the error (a clock set
/// before 1970) turned into `None`. Nothing is claimed of the duration.
#[verifier::external_body]
fn since_unix_epoch(t: &SystemTime) -> Option<Duration> {
    match t.duration_since(SystemTime::UNIX_EPOCH) {
        Ok(d) => Some(d),
        Err(_) => None,
    }
}

/// `Duration::as_millis`. Nothing is claimed of the number.
#[verifier::external_body]
fn duration_millis(d: &Duration) -> u128 {
    d.as_millis()
}

/// The identifier given to a server created at `ms` milliseconds after the
/// Unix epoch.
pub open spec fn server_id_text(ms: nat) -> Seq<char> {
    "srv_"@ + decimal(ms)
}

/// `"srv_"` followed by the decimal rendering of `ms`.
pub fn server_id_from_millis(ms: u128) -> (r: String)
    ensures
        r@ == server_id_text(ms as nat),
{
    let mut s = owned("srv_");
    push_decimal(&mut s, ms);
    s
}

/// The identifier for a clock reading: `elapsed_ms` is the time since the
/// Unix epoch in milliseconds, or `None` for a clock set before the epoch,
/// which counts as zero milliseconds (`"srv_0"`).
pub fn server_id_for_clock(elapsed_ms: Option<u128>) -> (r: String)
    ensures
        elapsed_ms matches Some(ms) ==> r@ == server_id_text(ms as nat),
        elapsed_ms is None ==> r@ == server_id_text(0),
{
    match elapsed_ms {
        Some(ms) => server_id_from_millis(ms),
        None => server_id_from_millis(0),
    }
}

/// A fresh server identifier derived from the current time in milliseconds
/// (zero when the clock is before the epoch); which reading of the clock is
/// used is not known before the call.
pub fn generate_uuid() -> (r: String)
    ensures
        exists|ms: u128| r@ == server_id_text(ms as nat),
{
    let now = system_now();
    let elapsed = match since_unix_epoch(&now) {
        Some(d) => Some(duration_millis(&d)),
        None => None,
    };
    let r = server_id_for_clock(elapsed);
    proof {
        match elapsed {
            Some(ms) => {},
            None => { assert(r@ == server_id_text(0u128 as nat)); },
        }
    }
    r
}

/// Name given to a server that has none.
pub fn default_server_name() -> (r: String)
    ensures
        r@ == "My Server"@,
{
    owned("My Server")
}

/// Source user name used when none is configured.
pub fn default_username() -> (r: String)
    ensures
        r@ == "source"@,
{
    owned("source")
}

#[derive(Debug, Clone, Copy, PartialEq, Eq, Structural)]
pub enum ServerType {
    Icecast,
    Shoutcast,
}

#[derive(Debug, Clone, Copy, PartialEq, Eq, Structural)]
pub enum Codec {
    MP3,
    Opus,
    OggVorbis,
    AAC,
    AACPlus,
}

#[derive(Debug, Clone, Copy, PartialEq, Eq, Structural)]
pub enum RecordingFormat {
    Wav,
    Mp3,
}

/// One streaming destination.
#[derive(Debug, Clone)]
pub struct ServerConfig {
    pub id: String,
    pub name: String,
    pub server_type: ServerType,
    pub host: String,
    pub port: u16,
    pub mount: String,
    pub source_password: String,
    pub admin_password: String,
    pub username: String,
    pub legacy_icecast: bool,
    pub custom_listener_url: String,
    pub custom_listener_mount: String,
    pub stream_name: String,
    pub stream_description: String,
    pub stream_genre: String,
    pub stream_url: String,
    pub public: bool,
    pub tls: bool,
}

#[derive(Debug, Clone)]
pub struct AudioConfig {
    pub device_name: Option<String>,
    pub sample_rate: u32,
    pub channels: u16,
    pub codec: Codec,
    pub bitrate_kbps: u32,
}

#[derive(Debug, Clone)]
pub struct RecordingConfig {
    pub enabled: bool,
    pub output_dir: String,
    pub format: RecordingFormat,
    pub split_hours: Option<u32>,
}

#[derive(Debug, Clone)]
pub struct MetadataConfig {
    pub update_from_file: bool,
    pub file_path: String,
    pub poll_interval_secs: u64,
}

#[derive(Debug, Clone)]
pub struct AppConfig {
    pub servers: Vec<ServerConfig>,
    pub selected_server_id: String,
    pub audio: AudioConfig,
    pub recording: RecordingConfig,
    pub metadata: MetadataConfig,
}

impl ServerConfig {
    /// Every setting but the identifier has its default value.
    pub open spec fn has_default_settings(self) -> bool {
        &&& self.name@ == "My Server"@
        &&& self.server_type == ServerType::Icecast
        &&& self.host@ == "localhost"@
        &&& self.port == 8000
        &&& self.mount@ == "/stream"@
        &&& self.source_password@ == "hackme"@
        &&& self.admin_password@ == "admin"@
        &&& self.username@ == "source"@
        &&& !self.legacy_icecast
        &&& self.custom_listener_url@.len() == 0
        &&& self.custom_listener_mount@.len() == 0
        &&& self.stream_name@ == "My Stream"@
        &&& self.stream_description@.len() == 0
        &&& self.stream_genre@.len() == 0
        &&& self.stream_url@.len() == 0
        &&& !self.public
        &&& !self.tls
    }

    /// The two servers agree on every field except possibly the name.
    pub open spec fn agrees_except_name(self, other: ServerConfig) -> bool {
        &&& self.id == other.id
        &&& self.server_type == other.server_type
        &&& self.host == other.host
        &&& self.port == other.port
        &&& self.mount == other.mount
        &&& self.source_password == other.source_password
        &&& self.admin_password == other.admin_password
        &&& self.username == other.username
        &&& self.legacy_icecast == other.legacy_icecast
        &&& self.custom_listener_url == other.custom_listener_url
        &&& self.custom_listener_mount == other.custom_listener_mount
        &&& self.stream_name == other.stream_name
        &&& self.stream_description == other.stream_description
        &&& self.stream_genre == other.stream_genre
        &&& self.stream_url == other.stream_url
        &&& self.public == other.public
        &&& self.tls == other.tls
    }
}

impl AudioConfig {
    pub open spec fn is_default(self) -> bool {
        &&& self.device_name is None
        &&& self.sample_rate == 44100
        &&& self.channels == 2
        &&& self.codec == Codec::MP3
        &&& self.bitrate_kbps == 128
    }
}

impl RecordingConfig {
    pub open spec fn is_default(self) -> bool {
        &&& !self.enabled
        &&& self.output_dir@.len() == 0
        &&& self.format == RecordingFormat::Wav
        &&& self.split_hours is None
    }
}

impl MetadataConfig {
    pub open spec fn is_default(self) -> bool {
        &&& !self.update_from_file
        &&& self.file_path@.len() == 0
        &&& self.poll_interval_secs == 5
    }
}

impl AppConfig {
    /// The configuration a first start produces: one default server, which
    /// is selected, and default audio, recording and metadata settings.
    pub open spec fn is_default(self) -> bool {
        &&& self.servers@.len() == 1
        &&& self.servers@[0].has_default_settings()
        &&& exists|ms: u128| self.servers@[0].id@ == server_id_text(ms as nat)
        &&& self.selected_server_id@ == self.servers@[0].id@
        &&& self.audio.is_default()
        &&& self.recording.is_default()
        &&& self.metadata.is_default()
    }

    /// Index of the first server whose identifier is `id`, if any.
    pub open spec fn first_index_with_id(servers: Seq<ServerConfig>, id: Seq<char>) -> Option<int>
        decreases servers.len(),
    {
        if servers.len() == 0 {
            None
        } else if servers[0].id@ == id {
            Some(0)
        } else {
            match Self::first_index_with_id(servers.drop_first(), id) {
                Some(i) => Some(i + 1),
                None => None,
            }
        }
    }

    /// The server that streaming uses: the first whose identifier is the
    /// selected one, else the first server.
    pub open spec fn selected_index(self) -> int {
        match Self::first_index_with_id(self.servers@, self.selected_server_id@) {
            Some(i) => i,
            None => 0,
        }
    }

    /// The selected server, falling back to the first one when no server has
    /// the selected identifier. A configuration without servers has no
    /// selected server.
    pub fn selected_server(&self) -> (r: &ServerConfig)
        requires
            self.servers@.len() > 0,
        ensures
            0 <= self.selected_index() < self.servers@.len(),
            *r == self.servers@[self.selected_index()],
    {
        let n = self.servers.len();
        let mut i: usize = 0;
        assert(self.servers@.subrange(0, n as int) =~= self.servers@);
        while i < n
            invariant
                n == self.servers@.len(),
                0 <= i <= n,
                Self::first_index_with_id(self.servers@.subrange(i as int, n as int), self.selected_server_id@)
                    matches Some(k) ==> Self::first_index_with_id(self.servers@, self.selected_server_id@)
                    == Some(k + i),
                Self::first_index_with_id(self.servers@.subrange(i as int, n as int), self.selected_server_id@)
                    is None ==> Self::first_index_with_id(self.servers@, self.selected_server_id@) is None,
            decreases n - i,
        {
            assert(self.servers@.subrange(i as int, n as int).drop_first() =~= self.servers@.subrange(
                i + 1,
                n as int,
            ));
            if same_text(self.servers[i].id.as_str(), self.selected_server_id.as_str()) {
                return &self.servers[i];
            }
            i = i + 1;
        }
        &self.servers[0]
    }
}

impl Default for ServerConfig {
    fn default() -> (r: Self)
        ensures
            r.has_default_settings(),
            exists|ms: u128| r.id@ == server_id_text(ms as nat),
    {
        ServerConfig {
            id: generate_uuid(),
            name: default_server_name(),
            server_type: ServerType::Icecast,
            host: owned("localhost"),
            port: 8000,
            mount: owned("/stream"),
            source_password: owned("hackme"),
            admin_password: owned("admin"),
            username: owned("source"),
            legacy_icecast: false,
            custom_listener_url: String::new(),
            custom_listener_mount: String::new(),
            stream_name: owned("My Stream"),
            stream_description: String::new(),
            stream_genre: String::new(),
            stream_url: String::new(),
            public: false,
            tls: false,
        }
    }
}

impl Default for AudioConfig {
    fn default() -> (r: Self)
        ensures
            r.is_default(),
    {
        AudioConfig {
            device_name: None,
            sample_rate: 44100,
            channels: 2,
            codec: Codec::MP3,
            bitrate_kbps: 128,
        }
    }
}

impl Default for RecordingConfig {
    fn default() -> (r: Self)
        ensures
            r.is_default(),
    {
        RecordingConfig {
            enabled: false,
            output_dir: String::new(),
            format: RecordingFormat::Wav,
            split_hours: None,
        }
    }
}

impl Default for MetadataConfig {
    fn default() -> (r: Self)
        ensures
            r.is_default(),
    {
        MetadataConfig { update_from_file: false, file_path: String::new(), poll_interval_secs: 5 }
    }
}

impl Default for AppConfig {
    fn default() -> (r: Self)
        ensures
            r.is_default(),
    {
        let default_server = ServerConfig::default();
        let selected_id = default_server.id.clone();
        let mut servers: Vec<ServerConfig> = Vec::new();
        servers.push(default_server);
        AppConfig {
            servers,
            selected_server_id: selected_id,
            audio: AudioConfig::default(),
            recording: RecordingConfig::default(),
            metadata: MetadataConfig::default(),
        }
    }
}

/// The layout configurations were stored in before several servers were
/// supported: one optional server and optional sections.
#[derive(Debug, Clone)]
pub struct LegacyAppConfig {
    pub server: Option<ServerConfig>,
    pub audio: Option<AudioConfig>,
    pub recording: Option<RecordingConfig>,
    pub metadata: Option<MetadataConfig>,
}

/// The name a legacy server keeps when it becomes the only server: an empty
/// name or the placeholder "My Server" becomes "Default Server".
pub open spec fn migrated_server_name(name: Seq<char>) -> Seq<char> {
    if name.len() == 0 || name == "My Server"@ {
        "Default Server"@
    } else {
        name
    }
}

impl AppConfig {
    /// `self` is what loading makes of a stored configuration in the current
    /// layout: a default server is added when there is none, and an empty
    /// selection selects the first server; nothing else changes.
    pub open spec fn completes(self, stored: AppConfig) -> bool {
        &&& stored.servers@.len() > 0 ==> self.servers == stored.servers
        &&& stored.servers@.len() == 0 ==> {
            &&& self.servers@.len() == 1
            &&& self.servers@[0].has_default_settings()
            &&& exists|ms: u128| self.servers@[0].id@ == server_id_text(ms as nat)
        }
        &&& self.selected_server_id@ == if stored.selected_server_id@.len() == 0 {
            self.servers@[0].id@
        } else {
            stored.selected_server_id@
        }
        &&& self.audio == stored.audio
        &&& self.recording == stored.recording
        &&& self.metadata == stored.metadata
    }

    /// `self` is what loading makes of a stored legacy configuration: its
    /// server (renamed as `migrated_server_name` says) becomes the only and
    /// selected server, its sections replace the defaults, and what is
    /// missing keeps its default.
    pub open spec fn migrates(self, old: LegacyAppConfig) -> bool {
        &&& self.servers@.len() == 1
        &&& match old.server {
            Some(s) => {
                &&& self.servers@[0].agrees_except_name(s)
                &&& self.servers@[0].name@ == migrated_server_name(s.name@)
                &&& self.selected_server_id@ == s.id@
            },
            None => {
                &&& self.servers@[0].has_default_settings()
                &&& exists|ms: u128| self.servers@[0].id@ == server_id_text(ms as nat)
                &&& self.selected_server_id@ == self.servers@[0].id@
            },
        }
        &&& match old.audio {
            Some(a) => self.audio == a,
            None => self.audio.is_default(),
        }
        &&& match old.recording {
            Some(rec) => self.recording == rec,
            None => self.recording.is_default(),
        }
        &&& match old.metadata {
            Some(m) => self.metadata == m,
            None => self.metadata.is_default(),
        }
    }
}

/// Makes a configuration parsed in the current layout usable: it gets a
/// default server when it has none, and the first server is selected when the
/// selection is empty.
pub fn complete_loaded_config(config: AppConfig) -> (r: AppConfig)
    ensures
        r.completes(config),
        r.servers@.len() > 0,
{
    let mut config = config;
    if config.servers.len() == 0 {
        config.servers.push(ServerConfig::default());
    }
    if config.selected_server_id.as_str().is_empty() {
        config.selected_server_id = config.servers[0].id.clone();
    }
    config
}

/// Turns a configuration stored in the legacy layout into the current one.
pub fn migrate_legacy_config(old: LegacyAppConfig) -> (r: AppConfig)
    ensures
        r.migrates(old),
        r.servers@.len() > 0,
{
    let mut config = AppConfig::default();
    let LegacyAppConfig { server, audio, recording, metadata } = old;
    match server {
        Some(old_server) => {
            let mut server = old_server;
            if server.name.as_str().is_empty() || same_text(server.name.as_str(), "My Server") {
                server.name = owned("Default Server");
            }
            config.selected_server_id = server.id.clone();
            let mut servers: Vec<ServerConfig> = Vec::new();
            servers.push(server);
            config.servers = servers;
        },
        None => {},
    }
    match audio {
        Some(a) => {
            config.audio = a;
        },
        None => {},
    }
    match recording {
        Some(rec) => {
            config.recording = rec;
        },
        None => {},
    }
    match metadata {
        Some(m) => {
            config.metadata = m;
        },
        None => {},
    }
    config
}

/// Whether the stored file is to be read in the legacy layout: it did not
/// parse in the current layout, or it parsed there without any server while
/// its legacy reading holds one (a file written before several servers were
/// supported reads as a current configuration with no servers).
pub open spec fn reads_as_legacy(current: Option<AppConfig>, legacy: Option<LegacyAppConfig>) -> bool {
    match legacy {
        None => false,
        Some(old) => match current {
            None => true,
            Some(c) => c.servers@.len() == 0 && old.server is Some,
        },
    }
}

/// What loading produces from a stored file: the legacy configuration
/// migrated when the file is in the legacy layout, else the file in the
/// current layout completed when it parsed as such, else the default
/// configuration. `current` and `legacy` are the results of parsing the file
/// text in either layout (`None` where parsing failed or there was no file).
pub fn config_from_stored(current: Option<AppConfig>, legacy: Option<LegacyAppConfig>) -> (r: AppConfig)
    ensures
        r.servers@.len() > 0,
        reads_as_legacy(current, legacy) ==> r.migrates(legacy->0),
        !reads_as_legacy(current, legacy) ==> match current {
            Some(c) => r.completes(c),
            None => r.is_default(),
        },
{
    let legacy_first = match (&current, &legacy) {
        (None, Some(_)) => true,
        (Some(c), Some(old)) => c.servers.len() == 0 && old.server.is_some(),
        _ => false,
    };
    if legacy_first {
        match legacy {
            Some(old) => migrate_legacy_config(old),
            None => AppConfig::default(),
        }
    } else {
        match current {
            Some(c) => complete_loaded_config(c),
            None => AppConfig::default(),
        }
    }
}

} // verus!
