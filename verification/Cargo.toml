[package]
name = "demo_analysis"
version = "0.1.0"
edition = "2021"
publish = false

[dependencies]
tf-demo-parser = "*"
steamid-ng = "*"
bitbuffer = "*"
serde = { version = "1", features = ["derive"] }
serde_json = "1"
anyhow = "1"
getopts = "0.2"
