[package]
name = "procbridge"
version = "0.1.0"
edition = "2021"
publish = false

[dependencies]
subprocess = "=0.2.15"
config = { version = "=0.15.27", default-features = false, features = ["json"] }
serde = { version = "=1.0.229", features = ["derive"] }
thiserror = "=2.0.21"
