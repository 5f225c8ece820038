[package]
name = "sada"
version = "0.1.0"
edition = "2021"
publish = false

[dependencies]
anyhow = "1"
base64 = "0.22"
bytes = "1"
cpal = "0.15"
dirs = "5"
env_logger = "0.11"
fdk-aac = "*"
lame = "*"
log = "0.4"
native-tls = "0.2"
opus = "0.3"
percent-encoding = "2"
reqwest = "0.12"
ringbuf = "0.4"
serde = { version = "1", features = ["derive"] }
serde_json = "1"
tokio = { version = "1", features = ["full"] }
tokio-native-tls = "0.3"
vorbis-encoder = "*"
