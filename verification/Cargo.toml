[package]
name = "maldness_bot"
version = "0.1.0"
edition = "2021"
publish = false

[dependencies]
chrono = "=0.4.45"
config = "=0.15.27"
frankenstein = { version = "=0.52.1", features = ["client-ureq"] }
humantime = "=2.4.0"
liquid = "=0.25.1"
rand = "=0.10.3"
serde = "=1.0.229"
ureq = { version = "=3.4.2", features = ["json"] }
