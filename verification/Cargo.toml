[package]
name = "cleverbot"
version = "0.1.0"
edition = "2021"
publish = false

[dependencies]
md5 = "0.7"
ringbuffer = "0.15"
chrono = "0.4"
parking_lot = "0.12"
thiserror = "1"
reqwest = { version = "0.12", default-features = false }

[dev-dependencies]
percent-encoding = "2"
