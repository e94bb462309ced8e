[package]
name = "plot_series"
version = "0.1.0"
edition = "2021"
publish = false

[dependencies]
calamine = "*"
reqwest = { version = "*", default-features = false, features = ["blocking"] }
