[package]
name = "lastlogin_gateway"
version = "0.1.0"
edition = "2021"
publish = false

[dependencies]
hex = "0.4"
sha2 = "0.10"

[dev-dependencies]
serde_json = "1"
serde_json_canonicalizer = "*"
