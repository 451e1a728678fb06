[package]
name = "spotify_player"
version = "0.25.1"
edition = "2021"
publish = false

[dependencies]
anyhow = "1"
chrono = "0.4"
flume = "*"
parking_lot = "0.12"
rspotify = { version = "*", default-features = false, features = ["client-reqwest"] }
tokio = { version = "1", features = ["macros", "rt", "time", "sync"] }
tracing = "0.1"
