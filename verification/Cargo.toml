[package]
name = "uuid_rs"
version = "0.1.0"
edition = "2021"
publish = false

[dependencies]
md5 = "*"
sha1_smol = "*"
mac_address = "*"
rand = "0.8"

[dev-dependencies]
regex = "*"
