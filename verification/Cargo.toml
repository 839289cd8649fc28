[package]
name = "captainfact"
version = "0.1.0"
edition = "2021"
publish = false

[dependencies]
chrono = "=0.4.45"
serde = { version = "=1.0.229", features = ["derive"] }
serde_json = "=1.0.154"
attohttpc = { version = "=0.31.0", features = ["json"] }
tungstenite = { version = "=0.30.0", features = ["native-tls"] }
elephantry = "=4.0.1"
elephantry-extras = { version = "=0.12.0", features = ["serde", "tera-pager"] }
envir = "=1.3.0"
clap = { version = "=4.6.7", features = ["derive"] }
log = "=0.4.35"
pretty_env_logger = "=0.5.0"
dotenv = "=0.15.0"
thiserror = "=2.0.21"
actix-web = "=4.18.1"
actix-files = "=0.7.3"
tera = "=2.4.0"
tera-hot = "=0.6.0"
