[package]
name = "bounty_bot"
version = "0.1.0"
edition = "2021"
publish = false

[dependencies]
sqids = "*"
fluxer-neptunium = "*"
chrono = "*"
either = "*"
serde = { version = "1", features = ["derive"] }
serde_json = "1"
sqlx = { version = "0.8", default-features = false, features = ["postgres", "runtime-tokio", "chrono", "json"] }
moka = { version = "*", features = ["sync"] }
tokio = { version = "1", features = ["macros", "rt-multi-thread", "time", "sync"] }
tracing = "*"
tracing-subscriber = "*"
dotenvy = "*"
anyhow = "1"
rand = "0.9"
