[package]
name = "archivr"
version = "0.1.0"
edition = "2021"
publish = false

[dependencies]
anyhow = "*"
camino = "*"
chrono = "*"
clap = { version = "*", features = ["derive"] }
crabrave = "*"
directories = "*"
env_logger = "*"
fs-err = "*"
log = "*"
minijinja = "*"
open = "*"
reqwest = "*"
serde = { version = "*", features = ["derive"] }
serde_json = "*"
sha2 = "*"
thiserror = "*"
tokio = { version = "*", features = ["full"] }
urlencoding = "*"
