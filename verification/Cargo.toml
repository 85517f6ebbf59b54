[package]
name = "tiktok_bot"
version = "0.1.0"
edition = "2021"
publish = false

[dependencies]
chrono = "=0.4.45"
colored = "=3.1.1"
config = "=0.15.27"
lazy_static = "=1.5.1"
reqwest = "=0.12.28"
serde = { version = "=1.0.229", features = ["derive"] }
serde_json = "=1.0.151"
sqlx = { version = "=0.9.0", default-features = false, features = ["postgres", "runtime-tokio"] }
# held back for teloxide-core, whose "0.1" requirement would otherwise pick
# takecell 0.1.2 and ask for a newer rustc than the toolchain has; only
# TakeCell is used there, which 0.1.1 carries
takecell = "=0.1.1"
teloxide = "=0.17.0"
tokio = { version = "=1.53.2", features = ["macros", "rt-multi-thread", "fs"] }
