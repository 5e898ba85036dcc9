[package]
name = "libtabun"
version = "0.1.0"
edition = "2021"
publish = false

[dependencies]
regex = "1"
unescape = "0.1"
url = "2"
select = "0.6"
hyper = "0.10"
multipart = { version = "0.18", default-features = false, features = ["client", "hyper"] }
