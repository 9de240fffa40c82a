[package]
name = "hmq_tui"
version = "0.1.0"
edition = "2021"
publish = false

[dependencies]
indexmap = "=2.14.2"
regex = "=1.13.1"
rusqlite = { version = "=0.30.0", features = ["bundled", "functions"] }
r2d2 = "=0.8.10"
r2d2_sqlite = "=0.23.0"
serde = { version = "=1.0.229", features = ["derive"] }
serde_json = { version = "=1.0.154", features = ["preserve_order"] }
json5 = "=0.4.1"
crossterm = "=0.27.0"
ratatui = "=0.30.2"
tui-textarea = "=0.4.0"
tokio = { version = "=1.54.1", features = ["full"] }
clap = { version = "=4.6.7", features = ["derive", "cargo"] }
color-eyre = "=0.6.5"
arboard = { version = "=3.7.0", default-features = false }
log = "=0.4.35"
itertools = "=0.12.1"
lazy_static = "=1.5.1"
futures = "=0.3.34"
tracing = "=0.1.44"
typed-builder = "=0.18.2"
derive_deref = "=1.1.1"
reqwest = { version = "=0.12.28", default-features = false, features = ["json"] }
