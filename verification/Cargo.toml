[package]
name = "converter"
version = "0.1.0"
edition = "2021"
publish = false

[dependencies]
bytes = "*"
futures = "*"
image = { version = "*", default-features = false, features = ["jpeg"] }
log = "*"
rdkafka = "*"
reqwest = { version = "*", default-features = false }
rust-s3 = "*"
serde = { version = "*", features = ["derive"] }
serde_json = "*"
simple_logger = "*"
structopt = "*"
tokio = { version = "*", features = ["rt-multi-thread"] }
