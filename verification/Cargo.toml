[package]
name = "munin_service"
version = "0.1.0"
edition = "2021"
publish = false

[dependencies]
clap = { version = "4", features = ["derive"] }
tokio = { version = "1", features = ["rt-multi-thread", "sync"] }
windows-service = "*"
windows-sys = { version = "*", features = ["Win32_Foundation"] }
