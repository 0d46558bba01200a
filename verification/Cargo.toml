[package]
name = "azalea_viaversion"
version = "0.1.0"
edition = "2021"
publish = false

[dependencies]
anyhow = "1"
async-compat = "*"
azalea = "*"
futures-util = "*"
indicatif = "*"
kdam = "*"
minecraft_folder_path = "*"
reqwest = { version = "*", features = ["stream"] }
semver = "1"
tokio = { version = "1", features = ["full"] }
tracing = "0.1"
