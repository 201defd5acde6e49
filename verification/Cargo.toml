[package]
name = "smartgrid_iot_security"
version = "0.1.0"
edition = "2021"
publish = false

[dependencies]
petgraph = "=0.6.5"
rand = { version = "=0.8.8", features = ["small_rng"] }
statrs = "=0.16.1"
serde = { version = "=1.0.229", features = ["derive"] }
serde_json = "=1.0.154"
log = "=0.4.34"
fast_log = "=1.7.10"
fastdate = "=0.1.39"
configparser = "=3.3.0"
chrono = "=0.4.45"
thousands = "=0.2.0"
apache-avro = { version = "=0.22.0", features = ["derive", "snappy"] }
thiserror = "=2.0.21"
flate2 = "1"
