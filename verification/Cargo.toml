[package]
name = "pgschemapc"
version = "0.1.0"
edition = "2021"
publish = false

[dependencies]
anyhow = "=1.0.104"
clap = { version = "=4.6.7", features = ["derive"] }
clientele = "=0.3.14"
either = "=1.19.0"
thiserror = "=2.0.21"
