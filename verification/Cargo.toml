[package]
name = "blog_api"
version = "0.1.0"
edition = "2021"
publish = false

[dependencies]
base64 = "0.22"
bcrypt = "0.15"
jwt = "0.16"
hmac = "0.12"
sha2 = "0.10"
toml = "0.8"
serde = { version = "1", features = ["derive"] }
serde_json = "1"
rocket = { version = "0.5", features = ["json"] }
diesel = { version = "2", features = ["postgres", "r2d2"] }
