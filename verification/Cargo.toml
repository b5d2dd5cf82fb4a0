[package]
name = "ddd_cqrs"
version = "0.1.0"
edition = "2021"
publish = false

[dependencies]
lru = "*"
uuid = { version = "*", features = ["v4"] }
email_address = "*"
serde = { version = "*", features = ["derive"] }
serde_json = "*"
async-trait = "*"
async-global-executor = "*"
