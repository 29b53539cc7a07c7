[package]
name = "otlp-exporter"
version = "0.1.0"
edition = "2021"
publish = false

[dependencies]
async-trait = "=0.1.92"
futures = "=0.3.34"
grpcio = "0.12"
http = "=0.2.12"
opentelemetry-proto = { version = "=0.3.0", features = ["gen-tonic", "traces", "metrics"] }
opentelemetry_api = { version = "=0.20.0", features = ["trace", "metrics"] }
opentelemetry_sdk = { version = "=0.20.0", features = ["trace", "metrics"] }
prost = "=0.11.9"
protobuf = "=2.28.0"
reqwest = { version = "=0.11.27", default-features = false, features = ["rustls-tls"] }
serde_json = "=1.0.154"
thiserror = "=1.0.69"
tonic = { version = "=0.9.2", features = ["tls"] }
