[package]
name = "taur"
version = "0.1.0"
edition = "2021"
publish = false

[dependencies]
clap = { version = "4", features = ["derive"] }
directories = "*"
futures = "0.3"
git2 = "*"
raur = "*"
termion = "*"
tokio = { version = "1", features = ["macros", "rt-multi-thread"] }
