[package]
name = "refer"
version = "0.1.0"
edition = "2021"
publish = false

[dependencies]
anyhow = "1"
clap = { version = "4", features = ["derive"] }
crossterm = "0.25"
tokio = { version = "1", features = ["macros", "rt-multi-thread"] }
tui = "0.19"
