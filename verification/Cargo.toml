[package]
name = "outward_error"
version = "0.1.0"
edition = "2021"
publish = false

[dependencies]
actix-web = "*"
diesel = { version = "*", features = ["r2d2"] }
libreauth = "*"
validator = "*"

[dev-dependencies]
r2d2 = "*"
