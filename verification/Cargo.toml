[package]
name = "blockless"
version = "0.1.0"
edition = "2021"
publish = false

[dependencies]
json = "=0.12.4"
url = "=2.5.8"
md5 = "=0.7.0"
serde_urlencoded = "=0.7.1"
httparse = "=1.10.1"
clap = { version = "=4.6.7", features = ["derive"] }
env_logger = "=0.10.2"
log = "=0.4.35"
tokio = { version = "=1.54.1", features = ["rt", "macros", "process", "fs", "io-util", "time", "net", "sync"] }
wasmtime = { version = "=46.0.3", default-features = false, features = ["cranelift", "coredump", "pooling-allocator", "cache"] }
wasmtime-wasi = "=46.0.3"
