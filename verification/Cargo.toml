[package]
name = "velobracket"
version = "0.1.0"
edition = "2021"
publish = false

[dependencies]
bracket-terminal = "=0.8.7"
clap = "=2.34.0"
specs = "=0.16.1"
tokio = { version = "=1.54.1", features = ["rt-multi-thread"] }
vek = "=0.14.1"
