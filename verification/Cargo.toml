[package]
name = "bankbot"
version = "0.1.0"
edition = "2021"
publish = false

[dependencies]
anyhow = "=1.0.104"
async-std = { version = "=1.13.2", features = ["attributes"] }
chrono = "=0.4.45"
git2 = "=0.21.0"
jsonwebtoken = "=8.3.0"
log = "=0.4.34"
octocrab = "=0.19.0"
pretty_env_logger = "=0.5.0"
rhai = "=1.26.1"
serde = { version = "=1.0.229", features = ["derive"] }
shell-words = "=1.1.1"
structopt = "=0.3.26"
surf = "=2.3.2"
thiserror = "=1.0.69"
tide = "=0.16.0"
tide-github = "=0.3.0"
tokio = { version = "=1.43.4", features = ["rt-multi-thread"] }
url = "=2.3.0"
