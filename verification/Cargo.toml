[package]
name = "pf_webos"
version = "0.1.0"
edition = "2021"
publish = false

[dependencies]
anyhow = "1"
image = { version = "0.25", default-features = false, features = ["gif", "jpeg", "png", "webp"] }
mdns-sd = "*"
opus = "0.3"
pem = "3"
rustls = { version = "0.23", default-features = false, features = ["ring", "std", "tls12"] }
sdl2 = { version = "0.37", features = ["ttf"] }
serde = { version = "1", features = ["derive"] }
serde_json = "1"
tiny-skia = "0.11"
tracing = "0.1"
tracing-appender = "0.2"
tracing-subscriber = "0.3"
ureq = { version = "3", features = ["rustls"] }
