[package]
name = "ipc_util"
version = "0.1.0"
edition = "2021"
publish = false

[dependencies]
interprocess = "1"
serde = { version = "1", features = ["derive"] }
bincode = "1"
sysinfo = "0.29"
thiserror = "1"

[dev-dependencies]
byteorder = "1"
