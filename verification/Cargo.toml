[package]
name = "org_portal"
version = "0.1.0"
edition = "2021"
publish = false

[dependencies]
actix-web = "4"
actix-files = "0.6"
actix-multipart = "0.7"
chrono = { version = "0.4", features = ["serde"] }
diesel = { version = "2", features = ["postgres", "chrono", "serde_json"] }
diesel-derive-enum = { version = "2", features = ["postgres"] }
dotenv = "0.15"
serde = { version = "1", features = ["derive"] }
serde_json = "1"
