[package]
name = "tavern_supervisor"
version = "0.1.0"
edition = "2021"
publish = false

[dependencies]
tokio = { version = "1", features = ["process", "io-util", "fs", "time", "sync", "rt-multi-thread", "macros"] }
chrono = "0.4"
dotenvy = "0.15"
libc = "0.2"
reqwest = { version = "0.12", default-features = false }
