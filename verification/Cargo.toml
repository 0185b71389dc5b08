[package]
name = "organization_api"
version = "0.1.0"
edition = "2021"
publish = false

[dependencies]
celes = "=2.8.2"
phonenumber = "=0.3.10"
tokio = { version = "=1.53.2", features = ["rt-multi-thread", "macros", "sync", "time", "fs"] }
async-channel = "=2.5.0"
mongodb = "=3.9.1"
serde = { version = "=1.0.229", features = ["derive"] }
serde_json = "=1.0.151"
log = "=0.4.34"
simple_logger = "=5.2.0"
futures = "=0.3.34"
