[package]
name = "dualstream"
version = "0.1.0"
edition = "2021"
publish = false

[dependencies]
anyhow = "1"
axum = "0.6"
base64 = "0.21"
futures-util = "0.3"
openh264 = "0.4"
pathsearch = "0.2"
rcgen = "0.11"
ring = "0.16"
rustls = "0.21"
time = "0.3"
tiny-skia = "0.11"
tokio = { version = "1", features = ["full"] }
tokio-rustls = "0.24"
tokio-tungstenite = "0.20"
tower-http = { version = "0.4", features = ["fs"] }
tracing-subscriber = "0.3"
wtransport = "0.1"
