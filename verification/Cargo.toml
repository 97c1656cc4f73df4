[package]
name = "window_bridge"
version = "0.1.0"
edition = "2021"
publish = false

[dependencies]
parse_int = "=0.9.0"
anyhow = "=1.0.104"
log = "=0.4.34"
tokio = { version = "=1.54.1", features = ["rt-multi-thread", "macros"] }
x11rb = { version = "=0.13.2", features = ["composite", "damage"] }
zbus = { version = "=3.15.2", default-features = false, features = ["tokio", "xml"] }
env_logger = "=0.10.2"
glib = "*"
gobject-sys = "*"
graphene-rs = "*"
ash = "*"
