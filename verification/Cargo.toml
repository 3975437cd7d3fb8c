[package]
name = "cosmic_widgets"
version = "0.1.0"
edition = "2021"
publish = false

[dependencies]
jiff = "=0.2.39"
palette = "=0.7.7"
css-color = "=0.2.8"
freedesktop-icons = "=0.4.0"
image = { version = "=0.25.10", default-features = false, features = ["gif", "png", "webp"] }
ashpd = { version = "=0.13.13", default-features = false, features = ["tokio", "settings"] }
tokio = { version = "=1.54.1", features = ["time", "rt", "macros", "fs"] }
futures-util = "=0.3.34"
taffy = "=0.5.2"
