[package]
name = "eloquentlog"
version = "0.1.0"
edition = "2021"
publish = false

[dependencies]
clap = "2"
dirs = "2.0"
reqwest = { version = "0.9", default-features = false }
serde = { version = "1.0", features = ["derive"] }
structopt = "0.3"
toml = "0.5"
