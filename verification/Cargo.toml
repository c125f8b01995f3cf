[package]
name = "archiver"
version = "0.1.0"
edition = "2021"
publish = false

[dependencies]
zip = { version = "0.6", default-features = false, features = ["deflate", "bzip2", "zstd", "time"] }
time = "0.3"
