[package]
name = "ratatui_base16"
version = "0.1.0"
edition = "2021"
publish = false

[dependencies]
figment = { version = "*", features = ["yaml", "toml"] }
ratatui = { version = "*", default-features = false }
serde = { version = "*", features = ["derive"] }
thiserror = "*"
