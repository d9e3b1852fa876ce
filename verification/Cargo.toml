[package]
name = "flight_control"
version = "0.1.0"
edition = "2021"
publish = false

[dependencies]
dotenv = "0.15"
open = "3"
reqwest = { version = "0.11", default-features = false, features = ["blocking", "rustls-tls"] }
serde = { version = "1", features = ["derive"] }
serde_json = "1"
tungstenite = { version = "0.18", default-features = false, features = ["handshake", "rustls-tls-webpki-roots"] }
