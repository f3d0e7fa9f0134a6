[package]
name = "web_service"
version = "0.1.0"
edition = "2021"
publish = false

[dependencies]
axum = "0.8"
axum-server = { version = "*", features = ["tls-rustls-no-provider"] }
chrono = { version = "0.4", features = ["serde"] }
clap = { version = "4", features = ["derive"] }
mime_guess = "2"
rand = "*"
rcgen = { version = "0.14", default-features = false, features = ["crypto", "pem", "ring"] }
reqwest = { version = "0.12", default-features = false, features = ["json", "rustls-tls"] }
rust-embed = "8"
rustls = { version = "0.23", default-features = false, features = ["ring", "std", "tls12", "logging"] }
serde = { version = "1", features = ["derive"] }
serde_json = "1"
serde_path_to_error = "0.1"
tempfile = "3"
thiserror = "2"
tokio = { version = "1", features = ["full"] }
tracing = "0.1"
tracing-appender = "0.2"
tracing-subscriber = "0.3"
url = "2"
uuid = { version = "1", features = ["v4", "serde"] }
