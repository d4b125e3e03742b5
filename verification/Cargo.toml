[package]
name = "print_bot"
version = "0.1.0"
edition = "2021"
publish = false

[dependencies]
anyhow = "=1.0.104"
chrono = "=0.4.45"
dither = "1.2"
egg-mode = "=0.15.0"
escposify = "=0.5.2"
hyper = "=0.10.16"
hyper-native-tls = "=0.3.0"
image = { version = "0.24", default-features = false, features = ["png", "jpeg", "gif", "webp"] }
log = "=0.4.34"
mlua = { version = "=0.5.4", features = ["lua54", "vendored"] }
simple-logging = "=2.0.2"
structopt = "=0.3.26"
tokio = { version = "=0.2.25", features = ["rt-core", "stream", "time"] }
v4l = "=0.12.1"
