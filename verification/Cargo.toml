[package]
name = "vimgram"
version = "0.1.0"
edition = "2021"
publish = false

[dependencies]
serde_json = "*"
serde = { version = "*", features = ["derive"] }
reqwest = { version = "*", default-features = false, features = ["json"] }
tokio = { version = "*", features = ["macros", "rt-multi-thread"] }
directories = "*"
dotenvy = "*"
grammers-client = "*"
grammers-session = "*"
crossterm = "*"
glass_pumpkin = "=2.0.0-rc0"
