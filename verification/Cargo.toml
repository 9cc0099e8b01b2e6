[package]
name = "antwerp"
version = "0.1.0"
edition = "2021"
publish = false

[dependencies]
marcus = "*"
titlecase = "*"
regex = "*"
serde = { version = "*", features = ["derive"] }
toml = "*"
glob = "*"
colored = "*"
grass = "*"
fs_extra = "*"
chrono = "*"
