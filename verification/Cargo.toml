[package]
name = "pinpam"
version = "0.1.0"
edition = "2021"
publish = false

[dependencies]
aes-gcm = "0.10"
argon2 = "0.5"
base64 = "0.22"
clap = { version = "4", features = ["derive"] }
env_logger = "0.11"
hex = "0.4"
landlock = "0.4"
libc = "0.2"
locale_config = "0.3"
log = "0.4"
nix = { version = "0.29", features = ["user", "fs", "term"] }
pam-sys = "0.5"
rand = "0.8"
rust-i18n = "3"
serde = { version = "1", features = ["derive"] }
serde_json = "1"
syslog = "7"
tss-esapi = "7"
walletd_bip39 = "*"
zeroize = "1"
