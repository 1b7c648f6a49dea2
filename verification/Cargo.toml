[package]
name = "event_ingestor"
version = "0.1.0"
edition = "2021"
publish = false

[dependencies]
ring = "*"
data-encoding = "*"
base64 = "*"
serde_json = "*"
serde = { version = "*", features = ["derive"] }
serde_derive = "*"
actix-web = { version = "*", default-features = false, features = ["macros"] }
reqwest = { version = "*", default-features = false, features = ["json"] }
envy = "*"
log = "*"
anyhow = "*"
