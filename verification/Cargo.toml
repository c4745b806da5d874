[package]
name = "haak"
version = "0.1.0"
edition = "2021"
publish = false

[dependencies]
actix = "=0.9.0"
actix-files = "=0.2.2"
actix-redis = "=0.8.2"
actix-rt = "=1.1.1"
actix-session = "=0.3.0"
actix-web = { version = "=2.0.0", features = ["openssl"] }
askama = "=0.9.0"
base64 = "=0.12.3"
# Not used directly. actix-http 1.0 subtracts a chrono `Duration` from a `time::Tm`,
# which needs a chrono whose `Duration` is still the one of time 0.1.
chrono = "=0.4.19"
env_logger = "=0.7.1"
lettre = { version = "=0.9.6", default-features = false, features = ["sendmail-transport"] }
lettre_email = "=0.9.4"
openssl = "=0.10.81"
rand = "=0.7.3"
redis-async = "=0.6.2"
serde = { version = "=1.0.229", features = ["derive"] }
validator = "=0.10.1"
