[package]
name = "winevt_channels"
version = "0.1.0"
edition = "2021"
publish = false

[dependencies]
serde_json = "1"
winapi = { version = "0.3", features = ["winevt", "errhandlingapi", "winerror", "minwindef"] }
