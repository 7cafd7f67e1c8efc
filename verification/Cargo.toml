[package]
name = "rose_offline"
version = "0.1.0"
edition = "2021"
publish = false

[dependencies]
arrayvec = "0.7"
async-trait = "0.1"
bevy_ecs = "0.5"
crossbeam-channel = "0.5"
legion = "0.4"
log = "0.4"
nalgebra = "0.33"
num-derive = "0.4"
num-traits = "0.2"
serde = { version = "1", features = ["derive"] }
serde_json = "1"
tokio = { version = "1", features = ["rt-multi-thread", "net", "sync", "macros", "io-util", "time"] }
