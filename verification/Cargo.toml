[package]
name = "commit_sign"
version = "0.1.0"
edition = "2021"
publish = false

[dependencies]
git2 = { version = "*", default-features = false }
thiserror = "*"

[dev-dependencies]
tempfile = "*"
