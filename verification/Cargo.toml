[package]
name = "password_bot"
version = "0.1.0"
edition = "2021"
publish = false

[dependencies]
getrandom = "=0.2.17"
teloxide = "=0.12.2"
tokio = { version = "=1.53.2", features = ["macros", "rt-multi-thread", "time"] }
takecell = "=0.1.1"
