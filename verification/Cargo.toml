[package]
name = "capture_pipeline"
version = "0.1.0"
edition = "2021"
publish = false

[dependencies]
serde_json = "1"
serde = { version = "1", features = ["derive"] }
image = { version = "0.25", default-features = false, features = ["png"] }
png = "*"
base64 = "0.22"
arboard = "3"
xcap = "*"
async-trait = "0.1"
futures-util = "0.3"
reqwest = { version = "0.11", features = ["json", "stream"] }
sevenz-rust = "*"
tokio = { version = "1", features = ["rt-multi-thread", "macros", "fs"] }
zip = "0.6"
