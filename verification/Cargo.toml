[package]
name = "dpop_auth"
version = "0.1.0"
edition = "2021"
publish = false

[dependencies]
argon2 = "=0.6.0"
axum = "=0.8.9"
axum-extra = { version = "=0.12.6", features = ["cookie"] }
base64ct = { version = "=1.8.3", features = ["alloc"] }
chrono = "=0.4.45"
getrandom = "=0.4.3"
hex = "=0.4.3"
http = "=1.5.0"
jsonwebtoken = { version = "=11.1.0", features = ["rust_crypto"] }
lettre = { version = "=0.11.23", default-features = false, features = ["builder", "smtp-transport", "hostname", "tokio1", "tokio1-rustls", "ring", "webpki-roots"] }
moka = { version = "=0.12.16", features = ["sync", "future"] }
serde = { version = "=1.0.229", features = ["derive"] }
serde_json = { version = "=1.0.154", features = ["raw_value"] }
sha2 = "=0.11.1"
sqlx = { version = "=0.9.0", default-features = false, features = ["postgres", "runtime-tokio", "uuid", "chrono", "ipnetwork", "macros", "migrate"] }
subtle = "=2.6.1"
thiserror = "=2.0.21"
time = "=0.3.55"
tokio = { version = "=1.54.1", features = ["full"] }
totp-rs = { version = "=6.0.0", features = ["gen_secret", "otpauth"] }
tower = { version = "=0.5.3", features = ["util"] }
tracing = "=0.1.44"
url = "=2.5.8"
uuid = { version = "=1.29.0", features = ["v4", "v7"] }

[dev-dependencies]
p256 = { version = "=0.14.0", features = ["pkcs8", "ecdsa", "getrandom"] }
