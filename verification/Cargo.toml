[package]
name = "entur_display"
version = "0.1.0"
edition = "2021"
publish = false

[dependencies]
time = { version = "*", features = ["std", "parsing"] }
embedded-graphics = "*"
sh1106 = "*"
embedded-svc = "*"
log = "*"
anyhow = "*"
heapless = "*"
toml-cfg = "*"
