[package]
name = "serde_unit_struct"
version = "0.1.0"
edition = "2021"
publish = false

[dependencies]
proc-macro2 = "1.0"
quote = "1.0"
syn = "1.0"

[dev-dependencies]
bson = "2"
csv = "1"
postcard = "1"
serde = "1.0"
serde_json = "1.0"
serde-pickle = "1"
serde_yaml = "0.9"
toml = "0.8"
