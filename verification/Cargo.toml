[package]
name = "gstrtmpx"
version = "0.1.0"
edition = "2021"
publish = false

[dependencies]
bytes = "1"
flume = "*"
rustls = "0.23"
rustls-native-certs = "*"
rustls-pemfile = "2"
tokio = { version = "1", features = ["io-util", "macros", "net", "rt", "time", "sync"] }
tokio-rustls = "0.26"
tokio-util = "0.7"

[dev-dependencies]
rcgen = "*"
