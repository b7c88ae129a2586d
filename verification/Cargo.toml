[package]
name = "sqlite"
version = "0.1.0"
edition = "2021"
publish = false

[dependencies]
rusqlite = { version = "=0.40.2", features = ["bundled", "column_decltype"] }
clap = "=4.6.7"
console = "=0.16.6"
dialoguer = "=0.12.0"
prettytable-rs = "=0.10.0"
