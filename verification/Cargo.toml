[package]
name = "gbemulator"
version = "0.1.0"
edition = "2021"
publish = false

[dependencies]
serde_json = "1"
log = "0.4"
simplelog = "0.12"
clap = "4"
minifb = "0.25"
