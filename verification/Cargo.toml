[package]
name = "pad_remote"
version = "0.1.0"
edition = "2021"

[dependencies]
enigo = "*"
gilrs = "*"
serde = { version = "*", features = ["derive"] }
