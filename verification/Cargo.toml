[package]
name = "hecs_systems"
version = "0.1.0"
edition = "2021"
publish = false

[dependencies]
hecs = "0.10"
derive_more = { version = "1", features = ["deref", "deref_mut"] }
