[package]
name = "vending_server"
version = "0.1.0"
edition = "2021"
publish = false

[dependencies]
actix-web = "4"
reqwest = { version = "0.12", default-features = false, features = ["json", "rustls-tls"] }
rusqlite = { version = "0.31", features = ["bundled"] }
serde = { version = "1", features = ["derive"] }
