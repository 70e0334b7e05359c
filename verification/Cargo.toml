[package]
name = "arpx"
version = "0.1.0"
edition = "2021"
publish = false

[dependencies]
anyhow = "*"
arpx_job_parser = "*"
clap = { version = "*", features = ["cargo"] }
crossbeam-channel = "*"
log = "*"
log4rs = "*"
serde = { version = "*", features = ["derive"] }
serde_yaml = "*"
termcolor = "*"
