[package]
name = "s3_gateway"
version = "0.1.0"
edition = "2021"
publish = false

[dependencies]
aws-sdk-s3 = "=1.152.0"
bytes = "=1.12.1"
futures-util = "=0.3.34"
http-body-util = "=0.1.5"
hyper = { version = "=1.12.0", features = ["http1", "server"] }
hyper-util = { version = "=0.1.21", features = ["tokio"] }
mime = "=0.3.17"
mime_guess = "=2.0.5"
tokio = { version = "=1.54.1", features = ["macros", "net", "rt-multi-thread", "signal", "sync"] }
tracing = "=0.1.44"
tracing-subscriber = "=0.3.23"
