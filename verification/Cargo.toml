[package]
name = "meo_wifi"
version = "0.1.0"
edition = "2021"
publish = false

[dependencies]
aes = "0.8"
base64 = "0.22"
cbc = "0.1"
pbkdf2 = "0.12"
serde_json = "1"
sha1 = "0.10"
ureq = { version = "2", features = ["json"] }
urlencoding = "2"

[dev-dependencies]
lazy-regex = "3"
