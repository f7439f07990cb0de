[package]
name = "reactor"
version = "0.1.0"
edition = "2021"
publish = false

[dependencies]
mio = { version = "1", features = ["os-poll", "net"] }
tokio = { version = "1", features = ["net", "rt", "rt-multi-thread", "io-util"] }
hyper = { version = "0.14", features = ["server", "http1", "http2", "runtime"] }
futures = "0.3"
matchit = "0.8"
napi = { version = "2", default-features = false, features = ["napi4", "tokio_rt"] }
napi-derive = "2"
