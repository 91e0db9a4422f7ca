[package]
name = "pyoxidizer"
version = "0.1.0"
edition = "2021"
publish = false

[dependencies]
anyhow = "=1.0.104"
copy_dir = "=0.1.3"
glob = "=0.3.4"
path-dedot = "=3.1.1"
python-packaging = "=0.1.0"
serde = { version = "=1.0.229", features = ["derive"] }
serde_json = "=1.0.154"
slog = "=2.8.2"
tar = "=0.4.46"
tempdir = "=0.3.7"
walkdir = "=2.5.0"
zstd = "=0.5.4"
