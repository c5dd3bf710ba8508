[package]
name = "ion_gst_rs"
version = "0.1.0"
edition = "2021"
rust-version = "1.95"
publish = false

[dependencies]
anyhow = "=1.0.104"
async-mutex = "=1.4.1"
async-std = "=1.13.2"
async-trait = "=0.1.92"
derive_more = { version = "=2.1.1", features = ["display"] }
enclose = "=1.2.1"
futures = "=0.3.34"
glib = "=0.10.3"
gstreamer = "=0.16.7"
gstreamer-sdp = "=0.16.6"
gstreamer-webrtc = "=0.16.5"
jsonrpsee = { version = "=0.26.1", features = ["ws-client"] }
log = "=0.4.34"
maplit = "=1.0.2"
pretty_env_logger = "=0.5.0"
serde = { version = "=1.0.229", features = ["derive"] }
serde_json = "=1.0.154"
tokio = { version = "=1.54.1", features = ["rt-multi-thread"] }
url = "=2.5.8"
