[package]
name = "repo_browser"
version = "0.1.0"
edition = "2021"
publish = false

[dependencies]
azure_devops_rust_api = { version = "*", features = ["git"] }
crossterm = "0.25"
tokio = { version = "1", features = ["rt-multi-thread", "macros"] }
tui = "0.19"
