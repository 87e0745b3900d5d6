[package]
name = "cx"
version = "0.1.0"
edition = "2021"
publish = false

[dependencies]
tokio = { version = "=1.53.2", features = ["rt", "time", "process", "io-util", "macros"] }
structopt = "=0.3.26"
