[package]
name = "ddccid"
version = "0.1.0"
edition = "2021"
publish = false

[dependencies]
ddc-hi = { version = "=0.4.1", default-features = false }
anyhow = "=1.0.104"
clap = { version = "=4.6.7", features = ["derive"] }
daemonize = "=0.5.0"
