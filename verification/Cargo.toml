[package]
name = "rusddit"
version = "0.1.0"
edition = "2021"
publish = false

[dependencies]
crossterm = "0.25"
home = "*"
reqwest = { version = "*", default-features = false, features = ["blocking", "cookies"] }
serde = { version = "*", features = ["derive"] }
serde_json = "*"
tui = "0.19"
