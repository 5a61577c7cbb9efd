[package]
name = "toznyauth_pam"
version = "0.1.0"
edition = "2021"
publish = false

[dependencies]
getopts = "*"
libc = "*"
qrcode = { version = "*", default-features = false }
toml = "*"
tozny_auth = "*"
url = "*"
