[package]
name = "spine_session"
version = "0.4.1"
edition = "2021"
publish = false

[dependencies]
anyhow = "1"
