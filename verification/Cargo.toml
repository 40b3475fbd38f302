[package]
name = "docker_stat_agent"
version = "0.1.0"
edition = "2021"
publish = false

[dependencies]
actix-web = { version = "4", default-features = false, features = ["macros", "rustls-0_23"] }
bollard = "*"
clap = { version = "4", features = ["derive"] }
futures-util = "0.3"
prometheus-client = "*"
rustls = "0.23"
rustls-pemfile = "2"
serde = { version = "1", features = ["derive"] }
serde_json = "1"
tokio = { version = "1", features = ["full"] }
tracing = "0.1"
tracing-actix-web = "0.7"
tracing-subscriber = "0.3"
