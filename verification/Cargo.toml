[package]
name = "weather"
version = "0.1.0"
edition = "2021"
publish = false

[dependencies]
url = "=2.5.8"
sql_query_builder = "=2.7.2"
trim-margin = "=0.1.0"
tokio = { version = "=1.54.1", features = ["full"] }
cqrs-es = "=0.4.12"
postgres-es = "=0.4.12"
sqlx = { version = "=0.8.6", default-features = false, features = ["postgres", "json"] }
async-trait = "=0.1.92"
serde = { version = "=1.0.229", features = ["derive"] }
serde_json = "=1.0.154"
axum = "=0.7.9"
reqwest = { version = "=0.12.28", default-features = false, features = ["json", "rustls-tls"] }
reqwest-middleware = "=0.4.2"
reqwest-retry = "=0.7.0"
geojson = "=0.24.2"
chrono = { version = "=0.4.45", features = ["serde"] }
iso8601-timestamp = "=0.2.17"
thiserror = "=1.0.69"
anyhow = "=1.0.104"
clap = { version = "=4.6.7", features = ["derive"] }
tracing = "=0.1.44"
num_cpus = "=1.17.0"
either = { version = "=1.19.0", features = ["serde"] }
enumflags2 = { version = "=0.7.12", features = ["serde"] }
tagid = { version = "=0.2.0", features = ["snowflake"] }
tower = { version = "=0.5.3", features = ["timeout", "util"] }
tower-http = { version = "=0.6.11", features = ["trace", "request-id", "util"] }
tower_governor = "=0.4.3"
