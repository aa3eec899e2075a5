[package]
name = "fluffy_chess"
version = "0.1.0"
edition = "2021"
publish = false

[dependencies]
capnp = "0.18"
capnp-rpc = "0.18"
clap = { version = "4", features = ["derive"] }
futures = "0.3"
serde = { version = "1", features = ["derive"] }
tokio = { version = "1", features = ["macros", "net", "rt"] }
tokio-util = { version = "0.7", features = ["compat"] }
