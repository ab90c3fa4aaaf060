[package]
name = "sis_preprocess"
version = "0.1.0"
edition = "2021"
publish = false

[dependencies]
anyhow = "1"
byteorder = "1"
clap = { version = "4", features = ["derive"] }
colored = "2"
figment = { version = "0.10", features = ["toml"] }
flexi_logger = "*"
log = "0.4"
ndarray = { version = "0.15", features = ["rayon"] }
notify = "6"
notify-debouncer-full = "0.3"
serde = { version = "1", features = ["derive"] }
