[package]
name = "init4-bin-base"
version = "0.1.0"
edition = "2021"
publish = false

[dependencies]
url = "2"
tracing-core = "0.1"
heck = "0.5"
alloy = { version = "*", default-features = false, features = ["std"] }
opentelemetry = "0.29"
opentelemetry_sdk = "0.29"
opentelemetry-otlp = "0.29"
opentelemetry-semantic-conventions = { version = "0.29", features = ["semconv_experimental"] }
tracing-opentelemetry = "0.30"
tracing-subscriber = { version = "0.3", features = ["env-filter", "json", "registry"] }
tracing-journald = "0.3"
metrics-exporter-prometheus = { version = "0.16", default-features = false, features = ["http-listener"] }
serde = { version = "1", features = ["derive"] }
thiserror = "2"
proc-macro2 = "1"
quote = "1"
syn = "2"
