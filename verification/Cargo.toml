[package]
name = "kild_ui"
version = "0.1.0"
edition = "2021"
publish = false

[dependencies]
alacritty_terminal = "*"
base64 = "*"
dirs = "*"
linkify = "*"
notify = "*"
open = "*"
regex = "*"
serde = { version = "1", features = ["derive"] }
serde_json = "1"
smol = "*"
thiserror = "*"
tracing = "*"
tracing-subscriber = { version = "*", features = ["env-filter"] }
