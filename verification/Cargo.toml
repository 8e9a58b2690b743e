[package]
name = "openframe"
version = "0.1.0"
edition = "2021"
publish = false

[dependencies]
smallvec = "1"
uuid = { version = "1", features = ["v4"] }
parking_lot = "0.12"
objc = "0.2"
async-task = "4"
futures = "0.3"
anyhow = "1"
raw-window-handle = "0.6"
metal = "0.29"
