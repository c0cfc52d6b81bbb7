[package]
name = "diskfmt"
version = "0.1.0"
edition = "2021"
publish = false

[dependencies]
anyhow = "1"
async-trait = "0.1"
clap = { version = "4", features = ["derive"] }
crossbeam-channel = "0.5"
fltk = "*"
fltk-accesskit = "*"
fltk-theme = "*"
fudisks = "*"
futures-util = "0.3"
serde = { version = "1", features = ["derive"] }
tokio = { version = "1", features = ["rt-multi-thread", "macros", "time"] }
toml = "*"
