[package]
name = "learn_helper"
version = "0.1.0"
edition = "2021"
publish = false

[dependencies]
base64 = "=0.23.1"
reqwest = { version = "=0.13.5", default-features = false, features = ["blocking", "cookies", "multipart", "form"] }
select = "=0.6.1"
serde_json = "=1.0.151"
