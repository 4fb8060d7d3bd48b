[package]
name = "conventional_commit"
version = "0.1.0"
edition = "2021"
publish = false

[dependencies]
anyhow = "1"
clap = { version = "4", features = ["derive"] }
email_address = "0.2"
thiserror = "2"
