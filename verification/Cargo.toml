[package]
name = "paged_selector"
version = "0.1.0"
edition = "2021"
publish = false

[dependencies]
serenity = { version = "0.10", features = ["collector", "unstable_discord_api"] }
tokio = { version = "1", features = ["macros", "rt-multi-thread", "time"] }
