[package]
name = "kindle_tool"
version = "0.1.0"
edition = "2021"
publish = false

[dependencies]
binrw = "0.14"
clap = { version = "4", features = ["derive"] }
