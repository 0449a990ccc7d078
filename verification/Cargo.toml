[package]
name = "mycv"
version = "0.1.0"
edition = "2021"
publish = false

[dependencies]
toml = "*"
axum = "*"
tokio = { version = "*", features = ["macros", "rt-multi-thread", "net"] }
askama = "*"
