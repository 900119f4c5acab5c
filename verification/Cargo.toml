[package]
name = "kafka_cli"
version = "0.1.0"
edition = "2021"
publish = false

[dependencies]
apache-avro = "=0.22.0"
serde_json = "=1.0.154"
rdkafka = "=0.39.0"
schema_registry_converter = { version = "=6.0.0", default-features = false, features = ["avro", "futures", "rustls_tls"] }
tokio = { version = "=1.54.1", features = ["macros", "rt-multi-thread", "time"] }
clap = { version = "=4.6.7", features = ["derive"] }
config = { version = "=0.15.27", default-features = false, features = ["yaml", "json", "json5"] }
serde = { version = "=1.0.229", features = ["derive"] }
env_logger = "=0.11.11"
log = "=0.4.35"
url = "=2.5.8"
anyhow = "=1.0.104"
