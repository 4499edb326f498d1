[package]
name = "screen_dream"
version = "0.1.0"
edition = "2021"
publish = false

[dependencies]
base64 = "=0.22.1"
image = { version = "=0.25.10", default-features = false, features = ["png", "jpeg", "webp"] }
serde = { version = "=1.0.229", features = ["derive"] }
serde_json = "=1.0.154"
thiserror = "=2.0.21"
tracing = "=0.1.44"
tracing-subscriber = { version = "=0.3.23", features = ["env-filter"] }
which = "=8.0.6"
dirs = "=7.0.0"
tokio = { version = "=1.54.1", features = ["rt", "rt-multi-thread", "time", "process", "io-util", "sync", "macros"] }
zbus = { version = "=5.19.0", default-features = false, features = ["tokio"] }
futures-util = "=0.3.34"
nix = { version = "=0.31.3", features = ["fs"] }
xcap = "=0.9.8"
ashpd = { version = "=0.13.13", features = ["screencast"] }
hound = "=3.5.1"
cpal = "=0.15.3"
pipewire = "=0.10.1"

[dev-dependencies]
tempfile = "=3.27.0"
