[package]
name = "mvg_lib"
version = "0.1.0"
edition = "2021"
publish = false

[dependencies]
chrono = "0.4"
clap = { version = "3", features = ["derive"] }
css-color-parser = "0.1"
http = "0.2"
hyper = { version = "0.14", features = ["client", "http1", "http2", "tcp"] }
hyper-tls = "0.5"
lazy_static = "1.4"
percent-encoding = "2"
serde = { version = "1", features = ["derive"] }
serde_json = "1"
serde_yaml = "0.8"
termion = "1.5"
tokio = { version = "1", features = ["macros", "rt-multi-thread"] }
