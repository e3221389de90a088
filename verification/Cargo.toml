[package]
name = "newcrc"
version = "0.1.0"
edition = "2021"
publish = false

[dependencies]
blake2 = "0.10"
cityhash = "*"
clap = { version = "4", features = ["derive"] }
crc32c = "0.6"
crc32fast = "1"
indicatif = "0.17"
num_cpus = "1"
rayon = "1"
sha2 = "0.10"
walkdir = "2"
xxhash-rust = { version = "0.8", features = ["xxh3"] }
