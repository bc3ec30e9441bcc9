[package]
name = "gofile"
version = "0.1.0"
edition = "2021"
publish = false

[dependencies]
anyhow = "*"
clap = { version = "*", features = ["derive"] }
clap_complete = "*"
etcetera = "*"
indicatif = "*"
md-5 = "*"
mime_guess = "*"
opener = "*"
pin-project-lite = "*"
reqwest = { version = "*", default-features = false, features = ["json", "multipart", "stream", "rustls-tls"] }
serde = { version = "*", features = ["derive"] }
time = { version = "*", features = ["serde", "parsing", "formatting"] }
tokio = { version = "*", features = ["rt-multi-thread", "macros", "fs", "time", "io-util"] }
tokio-util = { version = "*", features = ["io"] }
toml = "*"
url = "*"
