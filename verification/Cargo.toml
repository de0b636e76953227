[package]
name = "content_workflow"
version = "0.1.0"
edition = "2021"
publish = false

[dependencies]
clap = { version = "4", features = ["derive"] }
dotenvy = "0.15"
eyre = "0.6"
hex = "0.4"
tokio = { version = "1", features = ["full"] }
