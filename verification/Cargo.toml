[package]
name = "net_events"
version = "0.1.0"
edition = "2021"
publish = false

[dependencies]
chrono = "*"
cloudevents-sdk = "*"
pcap = "*"
serde = { version = "*", features = ["derive"] }
serde_json = "*"
uuid = { version = "*", features = ["v4"] }

[dev-dependencies]
etherparse = "*"
