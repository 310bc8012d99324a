[package]
name = "openubl_projects"
version = "0.1.0"
edition = "2021"
publish = false

[dependencies]
actix-web = "4"
log = "0.4"
sea-orm = { version = "1", default-features = false, features = ["macros"] }
serde = { version = "1", features = ["derive"] }
