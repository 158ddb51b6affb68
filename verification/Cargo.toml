[package]
name = "library_loans"
version = "0.1.0"
edition = "2021"
publish = false

[dependencies]
actix-web = { version = "4", default-features = false, features = ["macros"] }
bcrypt = "0.13"
chrono = { version = "0.4", features = ["serde"] }
derive_more = "0.99"
diesel = { version = "1.4", features = ["postgres", "chrono"] }
dotenv = "0.15"
jsonwebtoken = "8"
passwords = "3"
r2d2 = "0.8"
r2d2-diesel = "1.0"
serde = { version = "1", features = ["derive"] }
validator = "0.16"
