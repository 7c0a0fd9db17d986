[package]
name = "slack_app"
version = "0.1.0"
edition = "2021"
publish = false

[dependencies]
anyhow = "1"
axum = { version = "0.6", features = ["macros"] }
clap = { version = "4", features = ["derive", "env"] }
fiberplane = { version = "=1.0.0-beta.15", features = ["models"] }
form_urlencoded = "=1.2.2"
futures = "0.3"
reqwest = { version = "0.11", default-features = false, features = ["json"] }
secrecy = "0.8"
serde = { version = "1", features = ["derive"] }
slack-morphism = { version = "2", features = ["hyper"] }
sqlx = { version = "0.7", default-features = false, features = ["sqlite", "runtime-tokio", "time", "migrate"] }
thiserror = "1"
time = { version = "=0.3.55", features = ["formatting"] }
tokio = { version = "1", features = ["full"] }
tokio-util = { version = "0.7", features = ["io"] }
tracing = "0.1"
tracing-subscriber = { version = "0.3", features = ["env-filter", "json"] }
url = "=2.5.8"
