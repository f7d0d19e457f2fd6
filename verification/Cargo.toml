[package]
name = "accentor"
version = "0.1.0"
edition = "2021"
publish = false

[dependencies]
anyhow = "*"
clap = { version = "*", features = ["derive"] }
dirs = "*"
futures = "*"
reqwest = { version = "*", default-features = false, features = ["json"] }
rodio = "*"
rpassword = "*"
serde = { version = "*", features = ["derive"] }
serde_json = "*"
sqlx = { version = "*", default-features = false, features = ["runtime-tokio", "sqlite"] }
stream-download = "*"
tarpc = { version = "*", features = ["serde-transport", "serde-transport-json", "unix", "tokio1"] }
tokio = { version = "*", features = ["macros", "rt-multi-thread", "fs", "signal", "net", "sync", "time"] }
