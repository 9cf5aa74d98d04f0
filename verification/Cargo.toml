[package]
name = "moonshine"
version = "0.16.0"
edition = "2021"
publish = false

[dependencies]
async-shutdown = "=0.2.2"
crossbeam-channel = "=0.5.17"
libc = "=0.2.191"
mio-timerfd = "=0.2.0"
serde = { version = "=1.0.229", features = ["derive"] }
socket2 = "=0.6.5"
tokio = { version = "=1.54.1", features = ["net", "process", "rt-multi-thread", "sync"] }
tracing = "=0.1.44"
