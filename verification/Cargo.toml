[package]
name = "pgp"
version = "0.1.0"
edition = "2021"
publish = false

[dependencies]
aes = "0.8"
blowfish = "0.9"
cast5 = "0.11"
cfb-mode = "0.8"
des = "0.8"
md-5 = "0.10"
num-bigint-dig = "0.8"
rand = "0.8"
ripemd = "0.1"
rsa = "0.9"
sha1 = "0.10"
sha2 = "0.10"
sha3 = "0.10"
twofish = "0.7"
