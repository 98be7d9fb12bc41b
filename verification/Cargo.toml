[package]
name = "tpp_core"
version = "0.1.0"
edition = "2021"
publish = false

[dependencies]
streaming-stats = "=0.2.3"
serde = { version = "*", features = ["derive"] }
serde_json = "*"
irc = "*"
futures-util = "*"
tokio = { version = "*", features = ["rt-multi-thread", "macros"] }
config = "*"
enigo = "*"
gotham = "*"
gotham_derive = "*"
hyper = "1"
mime = "*"
