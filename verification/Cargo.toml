[package]
name = "pipo"
version = "0.1.0"
edition = "2021"
publish = false

[dependencies]
html-escape = "=0.2.15"
anyhow = "1"
tokio = { version = "1", features = ["rt-multi-thread", "macros", "net", "io-util", "time", "sync"] }
tokio-rustls = { version = "=0.24.1", features = ["dangerous_configuration"] }
webpki-roots = "=0.25.4"
