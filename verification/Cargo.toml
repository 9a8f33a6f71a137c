[package]
name = "kannon"
version = "0.1.0"
edition = "2021"
publish = false

[dependencies]
base64 = "0.22"
tonic = { version = "0.12", features = ["tls-native-roots"] }
prost = "0.13"
prost-types = "0.13"

[dev-dependencies]
tokio = { version = "1", features = ["rt"] }
