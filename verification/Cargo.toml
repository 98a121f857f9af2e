[package]
name = "hn_stories"
version = "0.1.0"
edition = "2021"
publish = false

[dependencies]
async-trait = "0.1"
chroma-print = "*"
clap = { version = "4", features = ["derive"] }
dialoguer = "*"
futures = "0.3"
reqwest = { version = "*", default-features = false, features = ["json", "rustls-tls"] }
serde = { version = "1", features = ["derive"] }
tokio = { version = "1", features = ["macros", "rt-multi-thread"] }
webbrowser = "*"
