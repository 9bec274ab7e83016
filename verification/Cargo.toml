[package]
name = "repository_kit"
version = "0.1.0"
edition = "2021"
publish = false

[dependencies]
failsafe = "=1.3.0"
deadpool = { version = "=0.13.1", default-features = false, features = ["managed"] }
deadpool-postgres = "=0.14.2"
tokio-postgres = "=0.7.18"
redis = { version = "=1.8.1", default-features = false, features = ["tokio-comp", "connection-manager"] }
tokio = { version = "=1.54.1", features = ["rt", "rt-multi-thread", "time", "macros", "sync"] }
serde = { version = "=1.0.229", features = ["derive"] }
tracing = "=0.1.44"
