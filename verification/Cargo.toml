[package]
name = "server"
version = "0.1.0"
edition = "2021"
publish = false

[dependencies]
actix-cors = "=0.7.2"
actix-rt = "=2.15.0"
actix-web = { version = "=4.18.1", default-features = false, features = ["macros"] }
actix-ws = "=0.3.1"
automerge = "=0.12.0"
dashmap = "=6.2.1"
dotenvy = "=0.15.7"
futures-util = "=0.3.34"
serde = { version = "=1.0.229", features = ["derive"] }
serde_json = "=1.0.154"
sqlx = { version = "=0.8.6", default-features = false, features = ["postgres", "runtime-tokio", "uuid", "migrate"] }
thiserror = "=2.0.21"
tokio = { version = "=1.54.1", features = ["macros", "rt", "signal", "time"] }
tokio-util = "=0.7.20"
tracing = "=0.1.44"
tracing-actix-web = "=0.7.25"
tracing-subscriber = { version = "=0.3.23", features = ["env-filter", "json"] }
utoipa = { version = "=5.5.0", features = ["actix_extras", "uuid"] }
utoipa-swagger-ui = { version = "9", features = ["actix-web", "vendored"] }
uuid = { version = "=1.29.0", features = ["v4", "serde"] }
