[package]
name = "sunwatcher"
version = "0.1.0"
edition = "2021"
publish = false

[dependencies]
sunrise = "=3.0.0"
chrono = { version = "=0.4.45", features = ["serde"] }
serde = { version = "*", features = ["derive"] }
figment = { version = "*", features = ["toml"] }
toml_edit = { version = "*", features = ["serde"] }
clap = { version = "*", features = ["derive"] }
interprocess = "*"
bincode = { version = "*", features = ["derive"] }
ctrlc = "*"
notify = "*"
shellexpand = "*"
