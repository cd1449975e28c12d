[package]
name = "zenith_status"
version = "0.1.0"
edition = "2021"
publish = false

[dependencies]
tonic = "0.12"
prost = "0.13"
tokio = { version = "1", features = ["macros", "rt-multi-thread", "signal", "net", "time"] }
tracing = "0.1"
tracing-subscriber = { version = "0.3", features = ["env-filter"] }
tracing-error = "0.2"
color-eyre = "0.6"
thiserror = "2"
axum = "0.7"
tower-http = { version = "0.6", features = ["timeout"] }
