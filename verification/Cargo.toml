[package]
name = "wash"
version = "0.1.0"
edition = "2021"
publish = false

[dependencies]
unicode-width = "=0.2.2"
term-table = "=1.4.0"
serde_json = "=1.0.151"
log = "*"
env_logger = "*"
structopt = "0.3"
crossterm = "0.25"
tui = "0.19"
tui-logger = "0.8"
nats = "*"
async-nats = "=0.39.0"
tokio = { version = "1", features = ["rt-multi-thread"] }
actix-rt = "2"
nkeys = "*"
provider-archive = "*"
wasmcloud-control-interface = "=3.0.1"
