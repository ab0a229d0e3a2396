[package]
name = "daq_sentry"
version = "0.1.0"
edition = "2021"
publish = false

[dependencies]
sysinfo = "*"
tokio = { version = "*", features = ["macros", "rt-multi-thread", "net", "signal", "fs", "time"] }
axum = "*"
serde = { version = "*", features = ["derive"] }
dotenvy = "*"
tracing = "*"
tracing-subscriber = "*"
diesel = { version = "*", features = ["sqlite", "returning_clauses_for_sqlite_3_35"] }
libsqlite3-sys = { version = "*", features = ["bundled"] }
