[package]
name = "can-transport"
version = "0.1.4"
edition = "2021"
publish = false

[dependencies]
async-trait = "0.1"
libc = "0.2"
log = "0.4"
nusb = { version = "0.2", features = ["tokio"] }
socketcan = { version = "3", features = ["tokio"] }
thiserror = "1"
tokio = { version = "1", features = ["macros", "rt", "sync", "time"] }
