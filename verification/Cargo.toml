[package]
name = "rwebapi"
version = "0.1.0"
edition = "2021"
publish = false

[dependencies]
argon2rs = "0.2"
chrono = "0.4"
jsonwebtoken = "8"
serde_json = "1"
serde = { version = "1", features = ["derive"] }
async-trait = "0.1"
actix-web = { version = "4", default-features = false, features = ["macros"] }
actix-rt = "2"
diesel = { version = "2", features = ["postgres", "r2d2", "chrono"] }
