[package]
name = "ic_kit"
version = "0.1.0"
edition = "2021"
publish = false

[dependencies]
futures = "0.3"
ic-cdk = "0.6"
ic-types = "0.4"
proc-macro2 = "1"
quote = "1"
serde = { version = "1", features = ["derive"] }
serde_tokenstream = "0.1"
syn = { version = "1", features = ["full"] }
thread-local-panic-hook = "*"
tokio = { version = "1", features = ["sync", "macros", "rt"] }
