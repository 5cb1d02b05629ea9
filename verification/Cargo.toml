[package]
name = "mop3"
version = "0.1.0"
edition = "2021"
publish = false

[dependencies]
chrono = "=0.4.45"
clap = { version = "=4.6.7", features = ["derive"] }
deunicode = "=1.6.2"
html2text = "=0.12.6"
mail-builder = "=0.3.2"
mail-parser = "=0.8.2"
onig = { version = "=6.5.3", default-features = false }
reqwest = { version = "=0.11.27", features = ["blocking", "json", "multipart"] }
serde = { version = "=1.0.229", features = ["derive"] }
serde_json = "=1.0.154"
