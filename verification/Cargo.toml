[package]
name = "mpk_mini_ctl"
version = "0.1.0"
edition = "2021"
publish = false

[dependencies]
anyhow = "*"
clap = { version = "*", features = ["derive"] }
clap_complete = "*"
home = "*"
log = "*"
midir = "*"
regex = "*"
serde = { version = "*", features = ["derive"] }
serde_derive = "*"
serde_yaml = "*"
simplelog = "*"
thiserror = "*"
