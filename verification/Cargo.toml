[package]
name = "graph_repo"
version = "0.1.0"
edition = "2021"
publish = false

[dependencies]
rsmgclient = "*"
actix-web = "4"
actix-cors = "*"
dotenv = "0.15"
env_logger = "*"
juniper = "*"
log = "0.4"
serde = { version = "1", features = ["derive"] }
