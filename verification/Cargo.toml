[package]
name = "netpulsar"
version = "0.1.0"
edition = "2021"
publish = false

[dependencies]
rand = "0.8"
uuid = { version = "1", features = ["v4"] }
tokio = { version = "1", features = ["net", "time", "rt", "rt-multi-thread", "macros", "sync"] }
socket2 = { version = "0.5", features = ["all"] }
serde = { version = "1", features = ["derive"] }
serde_json = "1"
netlink-sys = "0.8"
