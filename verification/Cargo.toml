[package]
name = "tealdeer"
version = "0.1.0"
edition = "2021"
publish = false

[dependencies]
anyhow = "=1.0.104"
app_dirs = "=1.2.1"
flate2 = "=1.1.10"
log = "=0.4.34"
pager = "=0.16.1"
reqwest = { version = "=0.11.27", features = ["blocking"] }
tar = "=0.4.46"
walkdir = "=2.5.0"
