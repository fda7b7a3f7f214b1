[package]
name = "tic_tac_toe"
version = "0.1.0"
edition = "2021"
publish = false

[dependencies]
ggez = { version = "=0.10.0", default-features = false }
