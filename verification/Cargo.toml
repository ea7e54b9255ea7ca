[package]
name = "openscq30"
version = "0.1.0"
edition = "2021"
publish = false

[dependencies]
macaddr = "1"
heck = "0.5"
ksni = "0.2"
tokio = { version = "1", features = ["sync"] }
