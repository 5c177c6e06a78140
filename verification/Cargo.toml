[package]
name = "sparrow"
version = "0.1.0"
edition = "2021"
publish = false

[dependencies]
futures = "*"
kanal = "*"
proc_mem = "*"
tokio = { version = "*", features = ["rt-multi-thread", "macros", "time", "net"] }
tokio-tungstenite = "*"
tray-item = "*"
