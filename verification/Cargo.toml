[package]
name = "embeddenator_cli"
version = "0.21.0"
edition = "2021"
publish = false

[dependencies]
anyhow = "=1.0.104"
embeddenator-fs = "=0.25.0"
embeddenator-vsa = "=0.23.0"

[dev-dependencies]
embeddenator-io = "=0.21.0"
tempfile = "=3.27.0"
