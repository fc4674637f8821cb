[package]
name = "oauth_loopback"
version = "0.1.0"
edition = "2021"
publish = false

[dependencies]
axum = "*"
directories = "*"
get_user_input = "*"
open = "*"
reqwest = { version = "*", default-features = false, features = ["form"] }
serde = "*"
tokio = { version = "*", features = ["macros", "rt-multi-thread", "net"] }
