[package]
name = "jadwiga"
version = "0.1.0"
edition = "2021"
publish = false

[dependencies]
base64 = "0.13"
openssl = "0.10"
serde_json = "1"
url = "2"
serde = { version = "1", features = ["derive"] }
bincode = "1"
chrono = "0.4"
reqwest = { version = "0.12", features = ["blocking"] }
dotenv = "0.15"
diesel = { version = "2", features = ["sqlite"] }
