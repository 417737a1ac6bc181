[package]
name = "lyrch"
version = "0.1.0"
edition = "2021"
publish = false

[dependencies]
chrono = "=0.4.45"
rand = "=0.7.3"
serenity = "=0.7.8"
postgres = { version = "=0.17.5", features = ["with-chrono-0_4", "with-serde_json-1", "with-bit-vec-0_6"] }
r2d2 = "=0.8.10"
r2d2_postgres = "=0.16.0"
r2d2_redis = "=0.12.0"
redis = "=0.13.0"
reqwest = "=0.9.24"
serde = { version = "=1.0.229", features = ["derive"] }
serde_json = "=1.0.154"
serde_postgres = "=0.2.0"
threadpool = "=1.8.1"
white_rabbit = "=0.1.1"
hey_listen = "=0.4.0"
lazy_static = "=1.5.1"
dotenv = "=0.15.0"
bit-vec = "=0.6.3"
