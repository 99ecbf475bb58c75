[package]
name = "fizyr-rpc"
version = "0.6.0"
edition = "2021"
publish = false

[dependencies]
byteorder = "=1.5.0"
filedesc = "=0.6.3"
tokio = { version = "=1.54.1", features = ["sync", "net", "io-util", "rt", "macros"] }
tokio-seqpacket = "=0.9.1"
futures = "=0.3.34"
serde = { version = "=1.0.229", features = ["derive"] }
serde_json = "=1.0.154"
syn = "=3.0.9"
quote = "=1.0.47"
proc-macro2 = "=1.0.107"
