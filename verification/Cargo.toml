[package]
name = "moto_hses"
version = "0.1.0"
edition = "2021"
publish = false

[dependencies]
bytes = "1"
encoding_rs = "0.8"
thiserror = "2"
log = "0.4"
tokio = { version = "1", features = ["net", "rt-multi-thread", "macros", "sync", "time"] }
