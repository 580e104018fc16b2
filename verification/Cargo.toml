[package]
name = "commanda"
version = "0.1.0"
edition = "2021"
publish = false

[dependencies]
anyhow = "1"
axum = "0.8"
base64 = "0.22"
futures-util = "0.3"
gettext-rs = "0.7"
gtk4 = "*"
image = { version = "0.25", default-features = false, features = ["png"] }
libadwaita = "*"
libc = "0.2"
local-ip-address = "*"
mime_guess = "2"
minijinja = "2"
qrcode = "0.14"
reqwest = { version = "0.12", features = ["json"] }
rust-embed = "8"
serde = { version = "1", features = ["derive"] }
serde_json = "1"
tokio = { version = "1", features = ["full"] }
tower-http = { version = "*", features = ["cors", "trace"] }
tracing = "0.1"
zbus = { version = "5", default-features = false, features = ["tokio"] }
