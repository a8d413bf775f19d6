[package]
name = "agsi_core"
version = "0.1.0"
edition = "2021"
publish = false

[dependencies]
apache-avro = "*"
base64 = "0.22"
clap = { version = "4", features = ["derive"] }
geo-types = "0.7"
serde = { version = "1", features = ["derive"] }
serde_json = "1"
uuid = { version = "1", features = ["v4"] }
wkt = "*"
