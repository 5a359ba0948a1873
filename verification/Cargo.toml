[package]
name = "fiftyshades"
version = "0.1.0"
edition = "2021"
publish = false

[dependencies]
chrono = "=0.4.45"
serde = { version = "=1.0.229", features = ["derive"] }
serde_json = "=1.0.151"
reqwest = { version = "=0.11.27", features = ["blocking", "json"] }
url = "=2.5.8"
handlebars = "=4.5.0"
toml = "=0.8.23"
dirs = "=5.0.1"
keyring = "=3.6.3"
rpassword = "=7.5.4"
dialoguer = "=0.11.0"
googapis = { version = "=0.6.0", features = ["google-logging-v2", "google-cloud-audit"] }
gcp_auth = "=0.7.6"
prost = "=0.9.0"
prost-types = "=0.9.0"
tonic = { version = "=0.6.2", features = ["tls"] }
tokio = { version = "=1.53.2", features = ["rt-multi-thread", "macros"] }
