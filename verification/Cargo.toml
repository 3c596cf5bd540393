[package]
name = "request_tracing"
version = "0.1.0"
edition = "2021"
publish = false

[dependencies]
axum = "=0.6.20"
hyper = "=0.14.32"
opentelemetry = "=0.22.0"
opentelemetry-http = "=0.11.1"
opentelemetry_sdk = "=0.22.1"
opentelemetry-stdout = { version = "=0.3.0", features = ["trace"] }
tokio = { version = "=1.54.1", features = ["macros", "rt-multi-thread", "net"] }
tower-http = { version = "=0.4.4", features = ["trace"] }
tracing = "=0.1.44"
tracing-opentelemetry = "=0.23.0"
tracing-subscriber = "=0.3.23"
