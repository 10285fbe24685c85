[package]
name = "gdacs_filter"
version = "0.1.0"
edition = "2021"
publish = false

[dependencies]
actix-web = "4"
chrono = "0.4"
em_filter = "0.1"
reqwest = "0.11"
serde_json = "1"
url = "2"
