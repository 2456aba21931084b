[package]
name = "cgroups_exporter"
version = "0.1.0"
edition = "2021"
publish = false

[dependencies]
anyhow = "=1.0.104"
arc-swap = "=1.9.3"
axum = "=0.8.9"
bytes = "=1.12.1"
cgroups-explorer = { version = "=0.6.0", features = ["regex"] }
cgroups-rs = "=0.5.1"
clap = { version = "=4.6.7", features = ["derive"] }
envconfig = "=0.11.1"
glob = "=0.3.4"
lru = "=0.19.0"
new_string_template = "=1.5.3"
notify = "=8.2.1"
notify-debouncer-full = "=0.7.0"
procfs = "=0.18.0"
regex = "=1.13.1"
serde = { version = "=1.0.229", features = ["derive"] }
serde_json = "=1.0.154"
serde_prom = "=0.2.0"
serde_yaml = "=0.9.34"
shell-quote = "=0.8.0"
thiserror = "=2.0.21"
tokio = { version = "=1.54.1", features = ["rt", "macros", "sync", "signal", "net", "fs", "time"] }
tokio-stream = "=0.1.19"
tokio-util = "=0.7.20"
tower-http = { version = "=0.7.1", features = ["compression-gzip", "timeout", "trace"] }
tracing = "=0.1.44"
tracing-subscriber = { version = "=0.3.23", features = ["env-filter", "json"] }
