[package]
name = "contact_repository"
version = "0.1.0"
edition = "2021"
publish = false

[dependencies]
tokio-postgres = "0.7"
tokio = { version = "1", features = ["rt"] }
async-trait = "0.1"
