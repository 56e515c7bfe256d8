[package]
name = "killabeez"
version = "0.1.0"
edition = "2021"
publish = false

[dependencies]
chrono = "=0.4.45"
aws-config = "=1.13.0"
aws-sdk-resourcegroupstagging = "=1.117.0"
clap = { version = "=4.6.7", features = ["derive"] }
figment = { version = "=0.10.19", features = ["toml"] }
futures = "=0.3.34"
russh = "=0.60.3"
russh-sftp = "=3.0.1"
serde = { version = "=1.0.229", features = ["derive"] }
tokio = { version = "=1.54.1", features = ["full"] }
