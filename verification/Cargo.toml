[package]
name = "cmk-agent-ctl"
version = "0.1.0"
edition = "2021"
publish = false

[dependencies]
anyhow = "=1.0.104"
indexmap = { version = "=2.14.2", features = ["serde"] }
log = "=0.4.34"
log4rs = "=1.4.0"
nix = { version = "=0.31.3", features = ["user", "fs"] }
pem = "=4.0.0"
rcgen = "=0.14.10"
rustls = "=0.23.46"
serde = { version = "=1.0.229", features = ["derive"] }
serde_json = "=1.0.154"
structopt = "=0.3.26"
ureq = "=3.5.0"
uuid = { version = "=1.29.0", features = ["v4"] }
