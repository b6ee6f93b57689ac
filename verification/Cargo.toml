[package]
name = "olha"
version = "0.1.0"
edition = "2021"
publish = false

[dependencies]
base64 = "=0.22.1"
chacha20poly1305 = "=0.10.1"
chrono = { version = "=0.4.45", default-features = false, features = ["clock", "std", "serde"] }
clap = { version = "4", default-features = false, features = ["std", "help", "usage", "derive"] }
clap_complete = { version = "4", features = ["unstable-dynamic"] }
comfy-table = "=7.2.2"
dirs = "6"
futures-util = "0.3"
iced = { version = "0.14", default-features = false, features = ["tiny-skia"] }
iced_layershell = { version = "0.19", default-features = false }
indexmap = "=2.14.2"
owo-colors = { version = "=4.4.0", features = ["supports-colors"] }
parking_lot = "0.12"
rand = "=0.8.8"
regex = "=1.13.1"
rusqlite = { version = "=0.31.0", features = ["bundled"] }
serde = { version = "1", features = ["derive"] }
serde_json = "=1.0.154"
sha2 = "=0.10.9"
shellexpand = { version = "=3.1.2", default-features = false, features = ["base-0", "tilde"] }
thiserror = "2"
tokio = { version = "1", features = ["rt-multi-thread", "macros", "sync", "time"] }
toml = "=0.8.23"
toml_edit = "=0.22.27"
tracing = "0.1"
tracing-subscriber = { version = "0.3", default-features = false, features = ["fmt", "env-filter", "std"] }
x25519-dalek = { version = "=2.0.1", features = ["static_secrets"] }
zbus = { version = "5", default-features = false, features = ["tokio"] }
zeroize = "=1.9.1"
