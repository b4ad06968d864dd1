[package]
name = "solti"
version = "0.1.0"
edition = "2021"
publish = false

[dependencies]
async-trait = "=0.1.92"
atty = "=0.2.14"
axum = "=0.8.9"
cfg-if = "=1.0.5"
hostname = "=0.4.2"
libc = "=0.2.191"
nix = { version = "=0.31.3", features = ["signal"] }
prometheus = "=0.14.0"
reqwest = { version = "=0.12.28", default-features = false, features = ["json"] }
serde = { version = "=1.0.229", features = ["derive"] }
serde_json = "=1.0.154"
taskvisor = { version = "=0.0.13", features = ["controller"] }
thiserror = "=2.0.21"
time = { version = "=0.3.55", features = ["formatting", "local-offset"] }
tokio = { version = "=1.54.1", features = ["full"] }
tokio-util = "=0.7.20"
tonic = "=0.14.6"
tracing = "=0.1.44"
tracing-journald = "=0.3.2"
tracing-subscriber = { version = "=0.3.23", features = ["env-filter", "json", "time", "local-time"] }
uuid = { version = "=1.29.0", features = ["v4"] }
