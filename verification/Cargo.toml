[package]
name = "stellar_scaffold"
version = "0.1.0"
edition = "2021"
publish = false

[dependencies]
regex = "=1.13.1"
toml_edit = "=0.23.9"
clap = { version = "=4.5.61", features = ["derive"] }
thiserror = "=2.0.21"
rust-embed = "=8.13.0"
