[package]
name = "branch_manager"
version = "0.1.0"
edition = "2021"
publish = false

[dependencies]
git2 = "*"
chrono = "*"
serde = { version = "*", features = ["derive"] }
serde_json = "*"

[dev-dependencies]
tempfile = "*"
