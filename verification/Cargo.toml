[package]
name = "holikeyz"
version = "0.1.0"
edition = "2021"
publish = false

[dependencies]
hmac = "0.12"
sha2 = "0.10"
base64 = "0.22"
uuid = { version = "1", features = ["v4"] }
chrono = { version = "0.4", features = ["serde"] }
rand = "0.8"
hex = "0.4"
aes = "0.8"
cbc = { version = "0.1", features = ["alloc"] }
serde = { version = "1", features = ["derive"] }
serde_json = "1"
reqwest = { version = "0.11", default-features = false, features = ["json"] }
tokio = { version = "1", features = ["full"] }
clap = { version = "4", features = ["derive"] }
log = "0.4"
env_logger = "0.11"
mdns-sd = "*"
anyhow = "1"
thiserror = "1"
keyring = { version = "3", features = ["linux-native"] }
dialoguer = "0.11"
colored = "2"
indicatif = "0.17"
rpassword = "7"
warp = { version = "0.3", default-features = false }
async-trait = "0.1"
dbus = "0.9"
dbus-crossroads = "0.5"
