[package]
name = "ruget"
version = "0.1.5"
edition = "2021"
publish = false

[dependencies]
base64 = "0.22"
chrono = { version = "0.4", features = ["serde"] }
clap = { version = "4", features = ["derive"] }
indicatif = "0.17"
netrc = "0.4"
rand = "0.8"
rayon = "1"
regex = "1"
reqwest = { version = "0.12", features = ["blocking", "cookies"] }
serde = { version = "1", features = ["derive"] }
serde_json = "1"
toml = "0.8"
url = "2"
