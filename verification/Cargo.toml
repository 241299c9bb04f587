[package]
name = "chch_daemon"
version = "0.1.0"
edition = "2021"
publish = false

[dependencies]
clap = { version = "*", features = ["derive"] }
nix = { version = "*", features = ["fs", "process", "term"] }
tokio = { version = "*", features = ["macros", "process", "rt", "sync", "time"] }
