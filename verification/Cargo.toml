[package]
name = "drift_monitor"
version = "0.1.0"
edition = "2021"
publish = false

[dependencies]
jsonschema = "*"
serde_json = "1"
serde = "1"
serde_yaml = "*"
openapiv3 = "*"
indexmap = "*"
