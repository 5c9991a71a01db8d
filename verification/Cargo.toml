[package]
name = "lowboy"
version = "0.1.0"
edition = "2021"
publish = false

[dependencies]
constant_time_eq = "=0.6.1"
validator = "=0.21.0"
password-auth = "=1.0.0"
gravatar_api = "=0.3.0"
oauth2 = { version = "=4.4.2", default-features = false }
chrono = { version = "=0.4.45", features = ["serde"] }
serde = { version = "=1.0.229", features = ["derive"] }
serde_json = "=1.0.154"
clap = { version = "=4.6.7", features = ["derive"] }
uuid = { version = "=1.29.0", features = ["v4"] }
xdg = "=3.0.0"
confique = { version = "=0.4.0", features = ["yaml"] }
base64 = "=0.22.1"
tracing = "=0.1.44"
tracing-subscriber = { version = "=0.3.23", features = ["env-filter"] }
tokio = { version = "=1.54.1", features = ["rt-multi-thread", "macros", "signal", "time"] }
axum = "=0.7.9"
diesel = { version = "=2.2.12", features = ["sqlite", "returning_clauses_for_sqlite_3_35", "chrono"] }
diesel-async = { version = "=0.5.2", features = ["sync-connection-wrapper", "sqlite", "deadpool"] }
libsqlite3-sys = { version = "=0.30.1", features = ["bundled"] }
tower-sessions = { version = "=0.13.0", features = ["signed"] }
axum-login = "=0.16.0"
axum-messages = "=0.7.0"
tower-http = { version = "=0.6.11", features = ["fs"] }
reqwest = { version = "=0.12.28", features = ["json"] }
async-trait = "=0.1.92"
futures = "=0.3.34"
flume = "=0.11.1"
rmp-serde = "=1.3.1"
thiserror = "=2.0.21"
