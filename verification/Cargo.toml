[package]
name = "selene"
version = "0.1.0"
edition = "2021"
publish = false

[dependencies]
rand = "*"
rand_pcg = "*"
anyhow = "*"
clap = { version = "4", features = ["derive"] }
serde = { version = "*", features = ["derive"] }
serde_yml = "*"
libloading = "*"
url = "*"
