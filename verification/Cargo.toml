[package]
name = "battery_master"
version = "0.1.4"
edition = "2021"
publish = false

[dependencies]
chrono = "=0.4.45"
serde = { version = "=1.0.229", features = ["derive"] }
serde_json = "=1.0.154"
log = "=0.4.35"
battery = "=0.7.8"
sys-info = "=0.9.1"
raw-cpuid = "=11.6.0"
tokio = { version = "=1.54.1", features = ["sync", "time", "rt-multi-thread", "macros"] }
sea-orm = { version = "=1.1.20", default-features = false, features = ["sqlx-sqlite", "runtime-tokio-rustls", "macros"] }
polars = { version = "=0.46.0", default-features = false, features = ["lazy", "parquet", "dynamic_group_by", "temporal", "dtype-datetime", "fmt"] }
