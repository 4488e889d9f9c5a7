[package]
name = "clipboard_cleaner"
version = "0.1.0"
edition = "2021"
publish = false

[dependencies]
mime = "0.3"
encoding = "0.2"
convert_case = "*"
serde = { version = "*", features = ["derive"] }
serde_yaml = "*"
toml = "*"
directories = "*"
