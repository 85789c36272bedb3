[package]
name = "chrondb"
version = "0.1.0"
edition = "2021"
publish = false

[dependencies]
serde_json = "1"
dirs = "*"
flate2 = "1"
libloading = "*"
tar = "*"
ureq = "*"
