[package]
name = "diesel_ltree"
version = "0.4.0"
edition = "2021"
publish = false

[dependencies]
byteorder = "1"
diesel = { version = "2.2", default-features = false, features = ["postgres_backend"] }
serde = { version = "1", features = ["derive"] }
