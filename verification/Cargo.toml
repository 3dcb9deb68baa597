[package]
name = "iam_service"
version = "0.1.0"
edition = "2021"
publish = false

[dependencies]
base32 = "0.4"
bcrypt = "0.15"
chrono = { version = "0.4", features = ["serde"] }
diesel = { version = "2.2", features = ["postgres", "r2d2", "chrono"] }
ginger-shared-rs = "=0.51.0-nightly.0"
jsonwebtoken = "9"
okapi = "0.7"
p256 = { version = "0.13", features = ["ecdsa", "pem", "pkcs8"] }
r2d2_redis = "0.14"
rand = "0.8"
rocket = { version = "0.5", features = ["json"] }
rocket_okapi = "0.8"
schemars = "0.8"
sec1 = { version = "0.7", features = ["pem"] }
serde = { version = "1", features = ["derive"] }
serde_json = "1"
sha2 = "0.10"
spki = "0.7"
ssh-key = { version = "0.6", features = ["ed25519", "rand_core"] }
