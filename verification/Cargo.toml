[package]
name = "federation_core"
version = "0.1.0"
edition = "2021"
publish = false

[dependencies]
activitypub_federation = { version = "*", default-features = false, features = ["actix-web"] }
actix-web = { version = "4", default-features = false }
chrono = { version = "0.4", default-features = false, features = ["serde", "std"] }
serde = { version = "1", features = ["derive"] }
serde_with = { version = "3", default-features = false, features = ["macros"] }
