[package]
name = "vehicle_fetch"
version = "0.1.0"
edition = "2021"
publish = false

[dependencies]
tiberius = { version = "*", default-features = false, features = ["tds73"] }
tokio = { version = "*", features = ["rt-multi-thread", "macros", "net"] }
axum = "*"
async-std = "*"
dotenv = "*"
