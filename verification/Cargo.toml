[package]
name = "pointersay"
version = "0.1.0"
edition = "2021"
publish = false

[dependencies]
anyhow = "*"
clap = { version = "*", features = ["derive"] }
gio = "*"
glib = "*"
gtk4 = "*"
gtk4-layer-shell = "*"
reqwest = { version = "*", default-features = false, features = ["rustls-tls"] }
smithay-client-toolkit = "*"
tokio = { version = "*", features = ["rt-multi-thread", "sync"] }
wayland-client = "*"
