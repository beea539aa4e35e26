[package]
name = "synchrosonic"
version = "0.1.0"
edition = "2021"
publish = false

[dependencies]
serde = { version = "1", features = ["derive"] }
serde_json = "1"
toml = "*"
mdns-sd = "*"
flume = "*"
thiserror = "*"
tracing = "*"
tracing-subscriber = { version = "*", features = ["env-filter", "fmt"] }
flate2 = "*"
tar = "*"
gtk4 = "*"
libadwaita = "*"

[dev-dependencies]
tempfile = "*"
