[package]
name = "autograder_setup"
version = "0.1.0"
edition = "2021"
publish = false

[dependencies]
anyhow = "=1.0.104"
clap = { version = "=4.6.7", features = ["derive"] }
cli-clipboard = "=0.4.0"
markdown-tables = "=0.1.0"
regex = "=1.13.1"
serde = { version = "=1.0.229", features = ["derive"] }
serde_json = { version = "=1.0.154", features = ["preserve_order"] }
syn = { version = "=2.0.119", features = ["full", "visit"] }
