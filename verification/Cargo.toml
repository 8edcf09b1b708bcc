[package]
name = "healthchecks"
version = "1.0.0"
edition = "2021"
publish = false

[dependencies]
anyhow = "1"
chrono = "0.4"
clap = "2"
prettytable-rs = "0.8"
ureq = { version = "1", features = ["json"] }
uuid = "0.8"
