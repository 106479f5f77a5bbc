[package]
name = "cfgen"
version = "0.1.0"
edition = "2021"
publish = false

[dependencies]
directories = "*"
toml = "*"
serde_yaml = "*"
tilde-expand = "*"
serde = { version = "*", features = ["derive"] }
once_cell = "*"
