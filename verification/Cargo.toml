[package]
name = "collie_app"
version = "0.1.0"
edition = "2021"
publish = false

[dependencies]
anyhow = "1"
clap = { version = "4", features = ["derive"] }
const_format = "0.2"
futures = "0.3"
handlebars = "4"
log = "0.4"
log4rs = "1"
passwords = "3"
regex = "1"
semver = "1"
serde = { version = "1", features = ["derive"] }
serde_yaml = "0.9"
tokio = { version = "1", features = ["fs", "process", "rt-multi-thread", "signal", "time"] }
tokio-util = "0.7"
which = "4"
xid = "1"
