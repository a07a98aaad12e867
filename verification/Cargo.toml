[package]
name = "echo_router"
version = "0.1.0"
edition = "2021"
publish = false

[dependencies]
futures = "0.3"
hyper = { version = "0.14", features = ["server", "http1", "tcp", "stream"] }
tokio = { version = "1", features = ["macros", "rt-multi-thread", "time"] }
