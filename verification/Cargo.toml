[package]
name = "ytmdctrl"
version = "0.1.0"
edition = "2021"
publish = false

[dependencies]
serde_json = "*"
parse_duration = "*"
serde = { version = "*", features = ["derive"] }
serde_repr = "*"
reqwest = { version = "*", default-features = false }
tokio = { version = "*", features = ["macros", "rt-multi-thread", "time"] }
arg = "*"
env_home = "*"
