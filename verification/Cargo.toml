[package]
name = "dtimelog_lib"
version = "0.1.0"
edition = "2021"
publish = false

[dependencies]
chrono = "0.4"
plotters = { version = "0.3", default-features = false, features = ["svg_backend", "chrono", "candlestick"] }
sqlite = "*"
