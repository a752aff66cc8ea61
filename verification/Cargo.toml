[package]
name = "gtk_qq"
version = "0.1.0"
edition = "2021"
publish = false

[dependencies]
base64 = "0.13"
bincode = "1"
ricq = "*"
rusqlite = { version = "0.28", features = ["bundled"] }
dirs = "4"
tokio = { version = "1", features = ["full"] }
once_cell = "1"
async-trait = "0.1"
log = "0.4"
fern = "0.6"
yansi = "0.5"
chrono = "0.4"
reqwest = { version = "0.11", default-features = false, features = ["rustls-tls"] }
qrcode-png = "*"
