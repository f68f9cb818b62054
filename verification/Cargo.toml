[package]
name = "hm_pi"
version = "0.1.0"
edition = "2021"
publish = false

[dependencies]
askama = "*"
askama_web = "*"
async-trait = "*"
axum = "*"
bytes = "*"
chrono = "*"
env_logger = "*"
futures = "*"
log = "*"
log4rs = "*"
num_enum = "*"
serde = { version = "*", features = ["derive"] }
serde_json = "*"
strum = { version = "*", features = ["derive"] }
thiserror = "*"
tokio = { version = "*", features = ["full"] }
tokio-modbus = { version = "*", features = ["tcp"] }
tokio-util = { version = "*", features = ["codec", "net"] }
tower-http = { version = "*", features = ["fs"] }
