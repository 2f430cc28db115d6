[package]
name = "space_kit"
version = "0.1.0"
edition = "2021"
publish = false

[dependencies]
num-traits = "=0.2.19"
daggy = "=0.8.1"
approx = "=0.5.1"
serde = { version = "1", features = ["derive"] }
