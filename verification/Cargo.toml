[package]
name = "forest_core"
version = "0.1.0"
edition = "2021"
publish = false

[dependencies]
anyhow = "=1.0.104"
chrono = { version = "=0.4.45", default-features = false }
cid = { version = "=0.11.3", features = ["serde"] }
clap = { version = "=4.6.7", features = ["derive"] }
fvm_ipld_blockstore = "=0.3.2"
fvm_ipld_encoding = "=0.5.4"
fvm_shared = "=4.8.4"
jsonrpc-v2 = { version = "=0.13.0", default-features = false, features = ["easy-errors", "hyper-integration"] }
libp2p = { version = "=0.57.1", default-features = false }
num-bigint = "=0.4.8"
serde = { version = "=1.0.229", features = ["derive"] }
serde_ipld_dagcbor = "=0.7.0"
serde_json = "=1.0.154"
tracing = "=0.1.44"
