[package]
name = "aperture_grpc_client"
version = "0.6.1"
edition = "2021"
publish = false

[dependencies]
aperture-grpc-proto = "=0.6.1"
tonic = { version = "=0.14.9", features = ["tls-ring", "tls-native-roots"] }
async-stream = "=0.3.6"
futures-core = "=0.3.34"
thiserror = "=2.0.21"
tokio = { version = "=1.54.1", features = ["time"] }
tracing = "=0.1.44"
