[package]
name = "home_services"
version = "0.1.0"
edition = "2021"
publish = false

[dependencies]
toml = "*"
axum = "*"
tokio = { version = "*", features = ["macros", "rt-multi-thread", "net", "fs"] }
futures = "*"
inotify = "*"
tower-http = { version = "*", features = ["fs", "trace"] }
tracing = "*"
tracing-subscriber = { version = "*", features = ["env-filter", "fmt"] }
