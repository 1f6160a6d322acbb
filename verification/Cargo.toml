[package]
name = "zakki"
version = "0.1.0"
edition = "2021"
publish = false

[dependencies]
aes = "0.8"
anyhow = "1"
base64 = "0.22"
cbc = { version = "0.1", features = ["alloc"] }
clap = { version = "4", features = ["derive"] }
dialoguer = "*"
itertools = "*"
katex = "0.4"
phf = { version = "0.11", features = ["macros"] }
pulldown-cmark = "*"
rand = "0.9"
rayon = "1"
regex = "1"
scraper = "*"
serde = { version = "1", features = ["derive"] }
serde_json = "1"
serde_yaml = "0.9"
sha2 = "0.10"
toml = "*"
