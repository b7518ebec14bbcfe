[package]
name = "jalmi"
version = "0.1.0"
edition = "2021"
publish = false

[dependencies]
serde_json = "1"
serde = { version = "1", features = ["derive"] }
serde_yaml = "0.9"
ureq = { version = "3", default-features = false, features = ["json", "rustls"] }
iced = { version = "0.13", default-features = false, features = ["tiny-skia"] }
listeners = "*"
log = "0.4"
reqwest = { version = "0.12", default-features = false, features = ["json", "rustls-tls"] }
