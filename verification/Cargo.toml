[package]
name = "mailer"
version = "0.1.0"
edition = "2021"
publish = false

[dependencies]
lettre = "0.11"
serde_json = "1.0"
