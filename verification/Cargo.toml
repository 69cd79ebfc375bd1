[package]
name = "spud"
version = "0.1.0"
edition = "2021"
publish = false

[dependencies]
argon2 = "0.5"
hmac = "0.12"
sha2 = "0.10"
hkdf = "0.12"
aes-gcm = "0.10"
rand_core = { version = "0.6", features = ["getrandom"] }
subtle = "2"
hex = "0.4"
hostname = "0.4"
fastrand = "2"
core-graphics = "0.24"
rcgen = "0.13"
rustls-pemfile = "2"
serde = { version = "1", features = ["derive"] }
toml = "0.8"
postcard = { version = "1", features = ["alloc"] }
dirs = "5"
zeroize = "1"
