[package]
name = "metis_agent"
version = "0.1.0"
edition = "2021"
publish = false

[dependencies]
base64 = "=0.22.1"
csv = "=1.4.0"
dirs = "=5.0.1"
enigo = "=0.3.0"
gemini-rs = "*"
image = { version = "=0.24.9", default-features = false, features = ["png"] }
once_cell = "=1.21.4"
rand = "=0.8.8"
rdev = "=0.5.3"
regex = "=1.13.1"
reqwest = { version = "=0.12.28", default-features = false, features = ["blocking", "json"] }
serde = { version = "=1.0.229", features = ["derive"] }
serde_json = "=1.0.154"
tokio = { version = "=1.54.1", features = ["rt-multi-thread"] }
