[package]
name = "deskled"
version = "0.1.0"
edition = "2021"
publish = false

[dependencies]
rand = "0.8"
time = "0.3"
ws2818-rgb-led-spi-driver = "*"
actix-cors = "*"
actix-web = { version = "4", default-features = false, features = ["macros"] }
clap = { version = "3", features = ["derive"] }
mysql = "*"
serde = { version = "1", features = ["derive"] }
serde_json = "1"
thiserror = "1"
tokio = { version = "1", features = ["fs", "io-util", "macros", "rt", "sync"] }
toml = "0.5"
tracing = "0.1"
tracing-actix-web = "*"
tracing-subscriber = "0.3"

[dev-dependencies]
color_space = "*"
