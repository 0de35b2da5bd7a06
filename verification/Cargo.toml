[package]
name = "rusty_password_manager"
version = "0.1.0"
edition = "2021"
publish = false

[dependencies]
aes-gcm = "0.10"
base64 = "0.22"
ring = "0.17"
rusqlite = { version = "0.31", features = ["bundled"] }
rand = "0.8"
crossterm = "0.27"
directories = "5"
clipboard = "0.5"
once_cell = "1"
serde = { version = "1", features = ["derive"] }
toml = "0.8"
