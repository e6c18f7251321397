[package]
name = "rsfb"
version = "0.1.0"
edition = "2021"
publish = false

[dependencies]
sf-api = "*"
tokio = { version = "1", features = ["macros", "rt-multi-thread", "time", "sync"] }
chrono = "0.4"
rand = "0.8"
rand_distr = "0.4"
serde = { version = "1", features = ["derive"] }
toml = "*"
strum = "*"
