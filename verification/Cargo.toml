[package]
name = "talpid_core"
version = "0.1.0"
edition = "2021"
publish = false

[dependencies]
async-trait = "=0.1.92"
clap = "=2.34.0"
err-derive = "=0.3.1"
error-chain = "=0.12.4"
futures = "=0.3.34"
jsonrpc-core = "=18.0.0"
jsonrpc-ws-server = "=18.0.0"
log = "=0.4.34"
tokio = { version = "=1.54.1", features = ["rt-multi-thread", "macros", "sync", "time"] }
winapi = { version = "=0.3.9", features = ["fileapi", "ioapiset", "winioctl"] }
