[package]
name = "infrastructure"
version = "0.1.0"
edition = "2021"
publish = false

[dependencies]
aide = { version = "0.11", features = ["axum", "redoc"] }
anyhow = "1"
arc-swap = "1"
argon2 = "0.5"
async-std = "1"
async-trait = "0.1"
axum = { version = "0.6", features = ["headers"] }
axum-jsonschema = { version = "0.6", features = ["aide"] }
axum-macros = "0.3"
envconfig = "0.10"
figment = { version = "0.10", features = ["yaml", "env"] }
http = "0.2"
lazy_static = "1"
log = "0.4"
once_cell = "1"
rand = "0.8"
redis = { version = "0.23", default-features = false }
schemars = "0.8"
sea-orm = { version = "0.12", default-features = false, features = ["sqlx-postgres", "runtime-tokio-rustls", "macros"] }
sea-orm-migration = { version = "0.12", default-features = false, features = ["sqlx-postgres", "runtime-tokio-rustls"] }
serde = { version = "1", features = ["derive"] }
serde_json = "1"
slog = "2"
sqlx = { version = "0.7", default-features = false, features = ["postgres", "runtime-tokio"] }
thiserror = "1"
tokio = { version = "1", features = ["full"] }
tower-http = { version = "0.4", features = ["trace", "cors", "compression-gzip"] }
tracing = "0.1"
tracing-subscriber = { version = "0.3", features = ["json"] }
