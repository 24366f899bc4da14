[package]
name = "search_index"
version = "0.1.0"
edition = "2021"
publish = false

[dependencies]
futures = "0.3"
futures-util = "0.3"
prost = "0.13"
rand = "0.8"
tokio = { version = "1", features = ["macros", "rt-multi-thread"] }
tokio-postgres = "0.7"
tonic = "0.12"
