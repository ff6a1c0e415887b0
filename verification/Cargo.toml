[package]
name = "picomeson"
version = "0.1.0"
edition = "2021"
publish = false

[dependencies]
anyhow = "=1.0.104"
clap = { version = "=4.6.7", features = ["derive"] }
hashbrown = "=0.17.1"
semver = "=1.0.28"
tempfile = "=3.27.0"
