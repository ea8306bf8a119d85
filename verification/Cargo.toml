[package]
name = "persona_exporter"
version = "0.1.0"
edition = "2021"
publish = false

[dependencies]
url = "2"
http = "1"
sysinfo = "*"
surf = { version = "2", default-features = false, features = ["h1-client-rustls"] }
smol = "2"
influxdb-line-protocol = "*"
serde = { version = "1", features = ["derive"] }
serde_json = "1"
argh = "*"
tracing = "0.1"
tracing-subscriber = { version = "0.3", features = ["env-filter"] }
compact_str = "*"
config = "*"
config-shellexpand = "*"
mimalloc = "*"
