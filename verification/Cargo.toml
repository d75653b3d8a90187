[package]
name = "tinify_batch"
version = "0.1.0"
edition = "2021"
publish = false

[dependencies]
image = "*"
tinify-rs = "*"
clap = { version = "*", features = ["derive"] }
dotenv = "*"
env_logger = "*"
log = "*"
