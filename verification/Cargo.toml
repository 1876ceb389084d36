[package]
name = "pretty_rusty"
version = "0.1.0"
edition = "2021"
publish = false

[dependencies]
clap = { version = "=4.5.61", features = ["derive"] }
ra_ap_syntax = "=0.0.335"
serde = { version = "=1.0.229", features = ["derive"] }
thiserror = "=2.0.21"
toml = "=0.8.23"
unicode-ident = "=1.0.24"
