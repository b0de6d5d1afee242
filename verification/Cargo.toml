[package]
name = "nf_collector"
version = "0.1.0"
edition = "2021"
publish = false

[dependencies]
anyhow = "1"
chrono = "0.4"
tokio = { version = "1", features = ["net", "rt-multi-thread", "macros"] }
