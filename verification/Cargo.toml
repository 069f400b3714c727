[package]
name = "stellarust"
version = "0.1.0"
edition = "2021"
publish = false

[dependencies]
tokio = { version = "=1.54.1", features = ["sync", "rt", "time", "macros"] }
bytes = "=1.12.1"
url = "=2.5.8"
actix = "=0.13.5"
actix-web = "=4.18.1"
actix-cors = "=0.7.2"
notify = "=6.1.1"
listenfd = "=1.0.2"
env_logger = "=0.11.11"
log = "=0.4.35"
anyhow = "=1.0.104"
futures = "=0.3.34"
serde = { version = "=1.0.229", features = ["derive"] }
serde_derive = "=1.0.229"
yew = "=0.18.0"
yew-event-source = "=0.2.1"
wasm-bindgen = "=0.2.130"
wasm-bindgen-futures = "=0.4.80"
wasm-logger = "=0.2.0"
