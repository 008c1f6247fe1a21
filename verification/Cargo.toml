[package]
name = "sicily"
version = "0.1.0"
edition = "2021"
publish = false

[dependencies]
bytes = "1"
log = "0.4"
num = "0.4"
pnet = "0.28"
pretty_env_logger = "0.4"
rand = "0.8"
sha2 = "0.9"
structopt = "0.3"
tokio = { version = "1", features = ["full"] }
