[package]
name = "speechdis"
version = "0.1.0"
edition = "2021"
publish = false

[dependencies]
redisai = "=0.1.1"
redis = "=1.8.1"
deadpool = "=0.13.1"
deadpool-redis = "=0.23.1"
strum = "=0.20.0"
serde = { version = "=1.0.229", features = ["derive"] }
serde_json = "=1.0.154"
rocket = { version = "=0.5.2", features = ["json"] }
rocket-multipart-form-data = "=0.11.1"
anyhow = "=1.0.104"
audrey = "=0.3.0"
dasp = { version = "=0.11.0", features = ["signal", "interpolate", "interpolate-sinc", "ring_buffer"] }
dasp_signal = "=0.11.0"
