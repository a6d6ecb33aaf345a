[package]
name = "pob_egui"
version = "0.1.0"
edition = "2021"
publish = false

[dependencies]
flate2 = "1"
mlua = { version = "0.10", features = ["luajit", "vendored"] }
reqwest = { version = "0.12", default-features = false, features = ["blocking", "rustls-tls"] }
arboard = { version = "3", default-features = false }
directories = "6"
glob = "0.3"
open = "5"
anyhow = "1"
log = "0.4"
env_logger = { version = "0.11", default-features = false }
egui = { version = "0.31", default-features = false }
