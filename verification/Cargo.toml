[package]
name = "card_lists"
version = "0.1.0"
edition = "2021"
publish = false

[dependencies]
chrono = "*"
num-format = "*"
scryfall = "*"
tokio = { version = "*", features = ["macros", "rt-multi-thread"] }
derive_more = { version = "*", features = ["display", "add"] }
