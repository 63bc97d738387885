[package]
name = "imgupload"
version = "0.1.0"
edition = "2021"
publish = false

[dependencies]
regex = "1"
base64-stream = "*"
serde_json = "1"
rocket = "0.5"
rocket-multipart-form-data = "*"
rocket-raw-response = "*"
reqwest = { version = "0.12", default-features = false, features = ["blocking", "rustls-tls"] }
libc = "0.2"
sharedlib = "*"
