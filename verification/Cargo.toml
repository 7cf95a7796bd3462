[package]
name = "wikisyncd"
version = "0.1.0"
edition = "2021"
publish = false

[dependencies]
fs2 = "0.4"
iced = { version = "0.13", default-features = false, features = ["tiny-skia", "tokio"] }
tokio = { version = "1", features = ["rt-multi-thread", "time"] }
