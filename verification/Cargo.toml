[package]
name = "node_fleet"
version = "0.1.0"
edition = "2021"
publish = false

[dependencies]
bytes = "1"
chrono = "0.4"
color-eyre = "0.6"
colored = "2"
crossterm = "0.28"
ratatui = "0.29"
rmp-serde = "1"
serde = { version = "1", features = ["derive"] }
serde_json = "1"
service-manager = "0.7"
thiserror = "1"
throbber-widgets-tui = "0.8"
tokio = { version = "1", features = ["sync"] }
