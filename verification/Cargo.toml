[package]
name = "tinty"
version = "0.1.0"
edition = "2021"
publish = false

[dependencies]
anyhow = "1"
clap = { version = "4", features = ["string"] }
clap_complete = "4"
dirs = "*"
fs2 = "0.4"
hex_color = "*"
home = "*"
rand = "0.8"
rayon = "1"
regex = "1"
serde = { version = "1", features = ["derive"] }
serde_json = "1"
serde_yaml = "0.9"
shell-words = "1"
tempfile = "3"
tinted-builder = "*"
tinted-builder-rust = "*"
tinted-scheme-extractor = "*"
toml = "*"
url = "2"
xdg = "*"
