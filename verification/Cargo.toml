[package]
name = "libgreetd_stub"
version = "0.1.0"
edition = "2021"
publish = false

[dependencies]
getopts = "*"
greetd_ipc = { version = "*", features = ["tokio-codec"] }
tokio = { version = "*", features = ["io-util", "macros", "net", "rt"] }
tracing = "*"
tracing-appender = "*"
tracing-subscriber = "*"
