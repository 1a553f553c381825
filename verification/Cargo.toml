[package]
name = "aof"
version = "0.1.0"
edition = "2021"
publish = false

[dependencies]
base64 = "=0.13.1"
byteorder = "=1.5.0"
chrono = "=0.4.45"
hex = "=0.4.3"
hmac = "=0.12.1"
libflate = "=1.4.0"
pbkdf2 = "=0.12.2"
rand = "=0.8.8"
sha2 = "=0.10.9"
subtle = "=2.6.1"
unicode-segmentation = "=1.13.3"
url = "=2.5.8"
clap = "=2.34.0"
log = "=0.4.34"
rmp-serde = "=1.3.1"
serde = { version = "=1.0.229", features = ["derive"] }
serde_json = "=1.0.154"
toml = "=0.5.11"
actix = "=0.10.0"
actix-web = { version = "=3.3.3", features = ["secure-cookies", "openssl"] }
actix-web-actors = "=3.0.0"
actix-files = "=0.5.0"
diesel = { version = "=1.4.8", features = ["sqlite", "r2d2"] }
fern = { version = "=0.6.2", features = ["colored"] }
ipc-channel = "=0.15.0"
nipper = "=0.1.9"
reqwest = "=0.10.10"
rustyline = "=8.2.0"
unicode-normalization = "=0.1.26"
xml-rs = "=0.8.29"
