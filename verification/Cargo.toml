[package]
name = "tstats"
version = "0.1.0"
edition = "2021"
publish = false

[dependencies]
base64 = "=0.22.1"
chrono = { version = "=0.4.45", default-features = false, features = ["std", "clock"] }
url = "=2.5.8"
serde = { version = "=1.0.229", features = ["derive"] }
serde_json = "=1.0.154"
thiserror = "=1.0.69"
redis = { version = "=1.8.1", features = ["tokio-comp"] }
tokio = { version = "=1.54.1", features = ["rt", "macros", "fs"] }
rosu-v2 = { version = "=0.11.0", default-features = false }
sea-orm = { version = "=1.1.20", default-features = false, features = ["macros", "with-chrono"] }
rand = "=0.8.8"
futures = "=0.3.34"
oauth2 = "5"
config = { version = "0.14", default-features = false, features = ["toml"] }
dotenvy = "0.15"
