[package]
name = "veracruz_host"
version = "0.1.0"
edition = "2021"
publish = false

[dependencies]
base64 = "0.13"
bincode = "1"
byteorder = "1"
clap = "2"
postcard = { version = "1", features = ["use-std"] }
rand = "0.8"
rand_distr = "0.4"
signal-hook = "0.3"
tempfile = "3"
