[package]
name = "polarimeter"
version = "1.5.5"
edition = "2021"
publish = false

[dependencies]
anyhow = "1"
calamine = "*"
chrono = { version = "0.4", default-features = false, features = ["std", "now"] }
crossbeam-channel = "0.5"
image = { version = "0.25", default-features = false, features = ["png"] }
linfa = "0.7"
linfa-linear = "0.7"
linfa-logistic = "0.7"
ndarray = { version = "0.15", features = ["serde"] }
parking_lot = "0.12"
rand = "0.8"
rust_xlsxwriter = "*"
serde = { version = "1", features = ["derive"] }
serialport = { version = "4", default-features = false }
tracing = "0.1"
tracing-subscriber = { version = "0.3", features = ["env-filter"] }
