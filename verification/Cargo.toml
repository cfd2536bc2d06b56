[package]
name = "rsl"
version = "0.1.0"
edition = "2021"
publish = false

[dependencies]
cxx = "=1.0.202"
discord-rich-presence = "=1.1.0"
log = "=0.4.34"
serde_json = "=1.0.151"
simple_logger = "=5.2.0"
zip = { version = "=8.6.0", default-features = false, features = ["deflate"] }
