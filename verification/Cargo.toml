[package]
name = "git_clean"
version = "0.1.0"
edition = "2021"
publish = false

[dependencies]
anyhow = "*"
dialoguer = "*"
dirs = "*"
git2 = { version = "*", default-features = false }
serde = { version = "*", features = ["derive"] }
serde_derive = "*"
serde_json = "*"
serde_yaml = "*"
