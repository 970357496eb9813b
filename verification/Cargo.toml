[package]
name = "talon-pilot-studio"
version = "0.1.0"
edition = "2021"
publish = false

[dependencies]
base64 = "0.22"
flate2 = "1"
pulldown-cmark = { version = "0.13", default-features = false, features = ["html"] }
reqwest = { version = "0.12", default-features = false, features = ["blocking", "rustls-tls"] }
serde = { version = "1", features = ["derive"] }
serde_json = "1"
tar = "0.4"
tokio = { version = "1", features = ["sync"] }
url = "2"
which = "*"
zip = { version = "2", default-features = false, features = ["deflate"] }
