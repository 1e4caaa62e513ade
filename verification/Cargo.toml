[package]
name = "mandate_dispatch"
version = "0.1.0"
edition = "2021"
publish = false

[dependencies]
actix-web = { version = "=4.18.1", default-features = false }
serde = { version = "1", features = ["derive"] }
