[package]
name = "krewetka"
version = "0.1.0"
edition = "2021"
publish = false

[dependencies]
chrono = "=0.4.45"
chrono-tz = "=0.5.3"
regex = "=1.13.1"
serde = { version = "=1.0.229", features = ["derive"] }
serde_json = "=1.0.154"
log = "=0.4.35"
env_logger = "=0.10.2"
tokio = { version = "=1.54.1", features = ["full"] }
actix = "=0.13.5"
actix-web = "=4.18.1"
actix-broker = "=0.4.4"
actix-web-actors = "=4.3.1"
rdkafka = "=0.28.0"
clickhouse-rs = "=1.0.0-alpha.1"
prost = "=0.11.9"
config = "=0.13.4"
clap = { version = "=4.6.7", features = ["derive"] }
