[package]
name = "stargate_node"
version = "0.1.0"
edition = "2021"
publish = false

[dependencies]
hex = "0.4"
anyhow = "1.0"
structopt = "0.3"
ctrlc = "3"
env_logger = "0.7"
futures = "0.1"
tokio = { version = "0.2", features = ["full"] }
