[package]
name = "op_net"
version = "0.1.0"
edition = "2021"
publish = false

[dependencies]
discv5 = "*"
tokio = { version = "1", features = ["macros", "rt", "rt-multi-thread", "sync", "time"] }
eyre = "0.6"
tracing = "0.1"
alloy = { version = "*", default-features = false }

[dev-dependencies]
alloy-rlp = "0.3"
unsigned-varint = "0.8"
