[package]
name = "vt3"
version = "0.1.0"
edition = "2021"
publish = false

[dependencies]
bzip2 = "=0.6.1"
reqwest = { version = "=0.13.5", default-features = false, features = ["blocking", "multipart", "query", "form"] }
serde = "=1.0.229"
serde_json = "=1.0.151"
