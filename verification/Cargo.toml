[package]
name = "t3unlock"
version = "0.1.0"
edition = "2021"
publish = false

[dependencies]
rusb = "0.9"
anyhow = "1"
thiserror = "1"
serde = { version = "1", features = ["derive"] }
serde_json = "1"
clap = { version = "4", features = ["derive"] }
clap_complete = "4"
clap_mangen = "0.2"
tracing = "0.1"
tracing-subscriber = { version = "0.3", features = ["env-filter"] }
atty = "0.2"
rpassword = "7"
zeroize = "1"
