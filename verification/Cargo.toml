[package]
name = "vmix_rs"
version = "0.1.0"
edition = "2021"
publish = false

[dependencies]
anyhow = "*"
async-trait = "*"
quick-xml = { version = "*", features = ["serialize"] }
serde = { version = "*", features = ["derive"] }
shiguredo_http11 = "*"
tokio = { version = "*", features = ["rt", "rt-multi-thread", "net", "io-util", "time", "macros"] }
urlencoding = "*"
