[package]
name = "sample_config"
version = "0.2.0"
edition = "2021"
publish = false

[dependencies]
proc-macro2 = "1"
quote = "1"
syn = { version = "1", features = ["full"] }
tracing = { version = "0.1", default-features = false, features = ["std"] }
url = "2"

[dev-dependencies]
json5 = "0.4"
serde_json = "1"
serde_yaml = "0.9"
