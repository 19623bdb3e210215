[package]
name = "agent_core"
version = "0.1.0"
edition = "2021"
publish = false

[dependencies]
url = "=2.5.8"
base64 = "=0.23.1"
mime_guess = "=2.0.5"
bcrypt = "=0.19.3"
html2text = "=0.17.4"
csv = "=1.4.0"
calamine = "=0.37.0"
lopdf = { version = "=0.46.0", default-features = false }
zip = { version = "=9.0.5", default-features = false, features = ["deflate"] }
xml-rs = "=1.0.0"
serde = { version = "=1.0.229", features = ["derive"] }
serde_json = "=1.0.154"
serde_yaml = "=0.9.34"
glob = "=0.3.4"
async-trait = "=0.1.92"
tokio = { version = "=1.54.1", features = ["full"] }
axum = { version = "=0.8.9", features = ["multipart"] }
reqwest = { version = "=0.13.5", default-features = false, features = ["json", "multipart"] }
jsonwebtoken = "=11.1.0"
uuid = { version = "=1.29.0", features = ["v4"] }
secrecy = "=0.10.3"
tracing = "=0.1.44"
tera = "=1.20.1"
thiserror = "=2.0.21"
tokio-stream = "=0.1.19"
tower-http = { version = "=0.6.11", features = ["trace", "cors", "set-header"] }
tracing-subscriber = "=0.3.23"
dotenvy = "=0.15.7"
