[package]
name = "glimpser"
version = "0.1.0"
edition = "2021"
publish = false

[dependencies]
hex = "0.4"
sha2 = "0.10"
ed25519-dalek = "2"
rand_core = { version = "0.6", features = ["getrandom"] }
argon2 = "0.5"
chrono = { version = "0.4", default-features = false, features = ["clock", "std"] }
image = { version = "0.25", default-features = false, features = ["jpeg", "png"] }
validator = "0.18"
mime_guess = "2"
serde = { version = "1", features = ["derive"] }
serde_json = "1"
base64 = "0.22"
jsonwebtoken = "9"
tokio = { version = "1", features = ["rt", "macros", "time", "fs"] }
reqwest = { version = "0.12", default-features = false, features = ["json"] }
actix-web = { version = "4", default-features = false, features = ["macros"] }
tempfile = "3"
futures-util = "0.3"
bytes = "1"
