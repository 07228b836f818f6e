[package]
name = "apache_log_exporter"
version = "0.1.0"
edition = "2021"
publish = false

[dependencies]
anyhow = "=1.0.104"
hyper = { version = "=0.14.32", features = ["server", "http1", "runtime", "tcp"] }
notify = "=6.1.1"
path-slash = "=0.2.1"
prometheus-client = "=0.22.3"
tokio = { version = "=1.54.1", features = ["fs", "io-util", "macros", "rt", "signal", "sync"] }
