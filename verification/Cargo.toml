[package]
name = "moss_weights"
version = "0.1.0"
edition = "2021"
publish = false

[dependencies]
sha2 = "0.10"
anyhow = "1"
clap = { version = "4", features = ["derive"] }
dirs = "5"
hf-hub = "0.4"
hound = "3"
serde = { version = "1", features = ["derive"] }
serde_json = "1"
ureq = "2"
