[package]
name = "todo_leptos"
version = "0.1.0"
edition = "2021"
publish = false

[dependencies]
jsonwebtoken = "=9.3.1"
bcrypt = "=0.19.3"
chrono = "=0.4.45"
serde = { version = "=1.0.229", features = ["derive"] }
serde_json = { version = "=1.0.154", features = ["raw_value"] }
leptos = { version = "0.8", features = ["ssr"] }
leptos_router = { version = "0.8", features = ["ssr"] }
leptos_meta = { version = "0.8", features = ["ssr"] }
leptos_actix = "0.8"
actix-web = "4"
actix-files = "0.6"
anyhow = "1"
dotenv = "0.15"
dotenvy = "0.15"
log = "0.4"
tracing = "0.1"
tracing-log = "0.2"
tracing-subscriber = { version = "0.3", features = ["env-filter"] }
