[package]
name = "tadoku"
version = "0.1.0"
edition = "2021"
publish = false

[dependencies]
discord-rich-presence = "0.2"
futures-util = "0.3"
lnk = "0.5"
log = "0.4"
serde = { version = "1", features = ["derive"] }
serde_json = "1"
sysinfo = "0.33"
tokio = { version = "1", features = ["net", "rt"] }
tokio-tungstenite = "0.24"
url = "2"
