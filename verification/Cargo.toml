[package]
name = "file_graph"
version = "0.1.0"
edition = "2021"
publish = false

[dependencies]
actix-cors = "0.7"
actix-web = "4"
base64 = "0.22"
env_logger = "0.11"
home = "0.5"
juniper = "0.16"
log = "0.4"
serde = { version = "1", features = ["derive"] }
tokio = { version = "1", features = ["macros", "rt-multi-thread"] }
