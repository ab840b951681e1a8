[package]
name = "computer_simulator"
version = "0.1.0"
edition = "2021"
publish = false

[dependencies]
thiserror = "1"
tokio = { version = "1", features = ["rt-multi-thread", "macros", "sync", "time"] }
glium = "0.32"
lazy_static = "1"
clap = { version = "4", features = ["derive"] }
