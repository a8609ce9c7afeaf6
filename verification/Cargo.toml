[package]
name = "remote_serial"
version = "0.1.0"
edition = "2021"
publish = false

[dependencies]
bytes = "*"
crossterm = { version = "*", features = ["event-stream"] }
futures = "*"
local_ipaddress = "*"
structopt = "*"
tokio = { version = "*", features = ["rt-multi-thread", "net", "io-util", "macros", "time"] }
tokio-serial = "*"
tokio-util = { version = "*", features = ["codec"] }
