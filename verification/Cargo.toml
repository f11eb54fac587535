[package]
name = "soc_net"
version = "0.1.0"
edition = "2021"
publish = false

[dependencies]
axum = { version = "=0.8.9", features = ["macros"] }
axum-valid = "=0.25.0"
chrono = { version = "=0.4.45", features = ["serde"] }
clap = { version = "4", features = ["derive", "env"] }
jsonwebtoken = "=9.3.1"
miette = { version = "7", features = ["fancy"] }
password-auth = "=1.0.0"
rayon = "1"
redis = { version = "=1.8.0", features = ["tokio-comp"] }
serde = { version = "1", features = ["derive"] }
serde_json = "=1.0.154"
sqlx = { version = "=0.8.6", default-features = false, features = ["runtime-tokio", "postgres", "chrono"] }
thiserror = "2"
tokio = { version = "1", features = ["full"] }
tower = "0.5"
tower-http = { version = "0.6", features = ["cors", "request-id", "trace"] }
tracing = "0.1"
tracing-subscriber = { version = "0.3", features = ["env-filter"] }
utoipa = { version = "=6.0.0", features = ["axum_extras"] }
utoipa-axum = "=0.3.0"
utoipa-swagger-ui = { version = "=10.0.2", features = ["axum", "vendored"] }
validator = "=0.20.0"
