[package]
name = "tug"
version = "0.1.0"
edition = "2021"
publish = false

[dependencies]
pulldown-cmark = "*"
libflate = "*"
hyper = "0.11"
futures = "0.1"
acme-client = "*"
toml = "*"
serde = { version = "*", features = ["derive"] }
log = "*"
fern = "*"
clap = "*"
chrono = "*"
