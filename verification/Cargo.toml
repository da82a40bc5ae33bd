[package]
name = "fh_list"
version = "0.1.0"
edition = "2021"
publish = false

[dependencies]
async-trait = "0.1"
clap = { version = "4", features = ["derive"] }
color-eyre = "0.6"
indicatif = "0.17"
prettytable = { version = "*", default-features = false }
serde = { version = "1", features = ["derive"] }
