[package]
name = "two_phase_commit"
version = "0.1.0"
edition = "2021"
publish = false

[dependencies]
rand = "0.8"
ipc-channel = "*"
clap = "*"
ctrlc = "*"
log = "0.4"
stderrlog = "*"
serde = { version = "1", features = ["derive"] }
