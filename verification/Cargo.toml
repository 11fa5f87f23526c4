[package]
name = "backend"
version = "0.1.0"
edition = "2021"
publish = false

[dependencies]
axum = "*"
config = { version = "*", default-features = false, features = ["toml"] }
log = "*"
sea-orm = { version = "*", default-features = false, features = ["macros", "runtime-tokio", "sqlx-postgres"] }
sea-orm-migration = { version = "*", default-features = false, features = ["runtime-tokio", "sqlx-postgres"] }
serde = { version = "*", features = ["derive"] }
tap = "*"
thiserror = "*"
tokio = { version = "*", features = ["macros", "net", "rt-multi-thread"] }
tracing = "*"
tracing-subscriber = "*"
utoipa = "*"
utoipa-axum = "*"
utoipa-scalar = { version = "*", features = ["axum"] }
