[package]
name = "stargate"
version = "0.1.0"
edition = "2021"
publish = false

[dependencies]
actix-cors = "=0.7.2"
actix-web = "=4.15.0"
opentelemetry = "=0.23.0"
opentelemetry_sdk = "=0.23.0"
opentelemetry-jaeger = "=0.22.0"
tracing = "=0.1.44"
tracing-actix-web = "=0.7.25"
tracing-bunyan-formatter = "=0.3.10"
tracing-log = "=0.2.0"
tracing-opentelemetry = "=0.24.0"
tracing-subscriber = { version = "=0.3.23", features = ["env-filter"] }
