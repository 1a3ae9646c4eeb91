[package]
name = "todoroc"
version = "0.1.0"
edition = "2021"
publish = false

[dependencies]
anyhow = "=1.0.104"
arboard = { version = "=3.7.0", default-features = false }
chrono = "=0.4.45"
crossterm = "=0.28.1"
dirs = "=5.0.1"
indicatif = "=0.17.11"
kstring = "=2.0.2"
ratatui = "=0.29.0"
rayon = "=1.12.0"
rusqlite = { version = "=0.32.1", features = ["bundled"] }
rusqlite_migration = "=1.3.1"
serde = { version = "=1.0.229", features = ["derive"] }
serde_json = "=1.0.154"
tokenizers = { version = "=0.20.4", default-features = false, features = ["onig"] }
tract-nnef = "=0.21.19"
tract-onnx = "=0.21.19"
ureq = "=2.12.1"
