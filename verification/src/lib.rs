//! Verified core of a desktop audio streaming client: configuration, the
//! Icecast/Shoutcast source protocols, the reconnecting network session,
//! metadata updates, PCM framing for the encoders and WAV recording.
pub mod audio;
pub mod config;
pub mod encoding;
pub mod recording;
pub mod state;
pub mod streaming;
pub mod text;

