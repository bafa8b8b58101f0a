[package]
name = "ip_lookup"
version = "0.1.0"
edition = "2021"
publish = false

[dependencies]
chrono = "=0.4.45"
filetime = "=0.2.29"
ip_network = "=0.4.1"
ip_network_table = "=0.2.0"
ipnetwork = "=0.21.1"
reqwest = { version = "=0.13.5", default-features = false, features = ["blocking"] }
serde = { version = "*", features = ["derive"] }
serde_json = "=1.0.151"
sha2 = "=0.11.0"
