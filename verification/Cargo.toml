[package]
name = "mpk_rs"
version = "0.1.0"
edition = "2021"
publish = false

[dependencies]
chrono = "=0.4.45"
chrono-tz = "=0.10.4"
digest_auth = "=0.3.1"
futures = "=0.3.34"
reqwest = "=0.13.5"
serde_json = "=1.0.154"
thiserror = "=2.0.21"
url = "=2.5.8"
