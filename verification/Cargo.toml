[package]
name = "online_tac_vm"
version = "0.1.0"
edition = "2021"
publish = false

[dependencies]
serde = { version = "1", features = ["derive"] }
yew = "0.9"
