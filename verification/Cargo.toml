[package]
name = "drivogram"
version = "1.0.2"
edition = "2021"
publish = false

[dependencies]
byte-unit = "4"
clap = "3.2"
colored = "2"
indicatif = "0.17"
kdam = "0.3"
mime_guess = "2"
regex = "1"
reqwest = { version = "0.11", default-features = false, features = ["json", "multipart", "stream"] }
serde = { version = "1", features = ["derive"] }
serde_json = "1"
tabled = "0.10"
tokio = { version = "1", features = ["full"] }
tokio-util = { version = "0.7", features = ["codec"] }
toml = "0.5"
