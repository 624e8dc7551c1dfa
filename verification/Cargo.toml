[package]
name = "shimiko"
version = "1.0.0"
edition = "2021"
publish = false

[dependencies]
anyhow = "*"
clap = "*"
indicatif = "*"
reqwest = { version = "*", default-features = false }
sevenz-rust2 = "*"
tempfile = "*"
tokio = { version = "*", features = ["macros", "rt-multi-thread", "sync", "fs"] }
url = "*"
zip = { version = "*", default-features = false, features = ["deflate"] }
