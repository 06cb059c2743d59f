[package]
name = "async_can"
version = "0.1.0"
edition = "2021"
publish = false

[dependencies]
tokio = { version = "=1.53.2", features = ["sync", "rt", "rt-multi-thread", "net", "io-util"] }
async-trait = "=0.1.92"
libc = "=0.2.190"
dlopen = "=0.1.8"
dlopen_derive = "=0.1.4"
rtnetlink = "=0.23.0"
futures = "*"
