[package]
name = "emacs_config_generator"
version = "0.1.0"
edition = "2021"
publish = false

[dependencies]
askama = "0.12"
axum = "0.6"
eyre = "0.6"
hyper = "0.14"
serde = { version = "1", features = ["derive"] }
serde_qs = "0.12"
tokio = { version = "1", features = ["macros", "rt-multi-thread"] }
tower-http = { version = "0.4", features = ["fs"] }
