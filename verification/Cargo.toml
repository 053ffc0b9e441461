[package]
name = "wifidirect"
version = "0.1.0"
edition = "2021"
publish = false

[dependencies]
thiserror = "=2.0.21"
tokio = { version = "=1.53.2", features = ["macros", "rt-multi-thread"] }
windows = { version = "=0.58.0", features = ["Devices_Enumeration", "Devices_WiFiDirect", "Foundation", "Foundation_Collections", "Networking_Sockets", "Storage_Streams"] }
