[package]
name = "lamco_rdp_server"
version = "1.4.0"
edition = "2021"
publish = false

[dependencies]
anyhow = "1"
ashpd = { version = "0.12", default-features = false, features = ["tokio"] }
async-trait = "0.1"
bytes = "1"
chrono = { version = "0.4", features = ["serde"] }
clap = { version = "4", features = ["derive"] }
dirs = "*"
futures-util = "0.3"
hostname = "*"
ironrdp-displaycontrol = "*"
ironrdp-dvc = "*"
ironrdp-egfx = "*"
ironrdp-graphics = "*"
ironrdp-svc = "*"
lamco-portal = { version = "*", default-features = false }
nix = { version = "*", features = ["fs", "process", "signal"] }
parking_lot = "*"
serde = { version = "1", features = ["derive"] }
serde_json = "1"
tokio = { version = "1", features = ["full"] }
toml = "*"
tracing = "0.1"
tracing-subscriber = { version = "0.3", features = ["env-filter"] }
uuid = { version = "1", features = ["v4"] }
wl-clipboard-rs = "*"
