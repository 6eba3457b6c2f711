[package]
name = "base16_templater"
version = "0.1.0"
edition = "2021"
publish = false

[dependencies]
clap = "4"
glob = "0.3"
mustache = "0.9"
serde = { version = "1", features = ["derive"] }
serde_yaml = "0.9"
