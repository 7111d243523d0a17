[package]
name = "personal_token"
version = "0.1.0"
edition = "2021"
publish = false

[dependencies]
anchor-lang = "0.30.1"
anchor-spl = { version = "0.30.1", default-features = false, features = ["token"] }
spl-token = { version = "4.0", features = ["no-entrypoint"] }
