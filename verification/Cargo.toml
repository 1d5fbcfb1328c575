[package]
name = "voicescribe"
version = "0.1.0"
edition = "2021"
publish = false

[dependencies]
serde_json = "1"
hound = "*"
reqwest = { version = "*", default-features = false, features = ["blocking", "multipart"] }
