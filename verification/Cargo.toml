[package]
name = "songmatch"
version = "0.1.0"
edition = "2021"
publish = false

[dependencies]
dotenvy = "*"
futures = "*"
rspotify = "*"
rustypipe = "*"
tokio = { version = "*", features = ["macros", "rt-multi-thread"] }
