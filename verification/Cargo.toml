[package]
name = "elasticsearch_sink"
version = "0.1.0"
edition = "2021"
publish = false

[dependencies]
http = "0.2"
url = "2"
bytes = "1"
hyper = "0.14"
serde = { version = "1", features = ["derive"] }
serde_json = "1"
snafu = "0.7"
aws-types = "0.51"
