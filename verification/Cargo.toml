[package]
name = "rustygolem"
version = "0.1.0"
edition = "2021"
publish = false

[dependencies]
anyhow = "1"
async-trait = "0.1"
base64 = "0.21"
futures = "0.3"
irc = { version = "0.15", default-features = false }
log = "0.4"
time = "0.3"
tokio = { version = "1", features = ["macros", "rt-multi-thread", "sync", "time"] }
