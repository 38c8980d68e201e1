[package]
name = "meshuganah"
version = "0.1.0"
edition = "2021"
publish = false

[dependencies]
async-trait = "0.1"
bson = "1"
futures = "0.3"
mongodb = { version = "1", default-features = false, features = ["async-std-runtime"] }
serde = { version = "1", features = ["derive"] }
