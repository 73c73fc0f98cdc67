[package]
name = "rust_user"
version = "0.1.0"
edition = "2021"

[dependencies]
bcrypt = "0.15"
chrono = "0.4"
crossterm = "0.27"
rand = "0.8"
serde = { version = "1", features = ["derive"] }
toml = "0.8"
