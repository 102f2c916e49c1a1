[package]
name = "anilink_downloader"
version = "0.1.0"
edition = "2021"
publish = false

[dependencies]
anyhow = "=1.0.104"
comfy-table = "=8.0.1"
confy = "=2.0.0"
console = "=0.16.6"
crossterm = "=0.29.0"
dialoguer = "=0.12.0"
dirs-next = "=2.0.0"
futures-util = "=0.3.34"
indicatif = "=0.18.6"
lazy_static = "=1.5.1"
nix = { version = "=0.31.3", features = ["signal"] }
parking_lot = "=0.13.0"
ratatui = "=0.30.2"
regex = "=1.13.1"
reqwest = { version = "=0.12.28", default-features = false, features = ["stream", "rustls-tls"] }
rust-ini = "=0.21.3"
sanitize-filename = "=0.6.0"
serde = { version = "=1.0.229", features = ["derive"] }
sevenz-rust = "=0.6.1"
thiserror = "=2.0.21"
tokio = { version = "=1.54.1", features = ["full"] }
unicode-width = "=0.2.2"
winapi = { version = "=0.3.9", features = ["handleapi", "processthreadsapi", "tlhelp32", "winnt"] }
