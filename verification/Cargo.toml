[package]
name = "workspace_unused_deps"
version = "0.1.0"
edition = "2021"
publish = false

[dependencies]
cargo_toml = "=1.0.1"
clap = { version = "=4.6.7", features = ["derive"] }
grep = "=0.3.2"
rustdoc-json = "=0.9.10"
serde = { version = "=1.0.229", features = ["derive"] }
serde_json = { version = "=1.0.154", features = ["unbounded_depth"] }
serde_path_to_error = "=0.1.20"
walkdir = "=2.5.0"
