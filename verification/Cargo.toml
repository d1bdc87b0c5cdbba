[package]
name = "fluffy_birb"
version = "0.1.0"
edition = "2021"
publish = false

[dependencies]
iced = { version = "0.13", default-features = false }
iced_futures = "0.13"
futures = "0.3"
async-std = "1"
