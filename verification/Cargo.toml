[package]
name = "influxdb_r2d2"
version = "0.1.0"
edition = "2021"
publish = false

[dependencies]
influx_db_client = "=0.3.6"
r2d2 = "=0.8.10"
url = "=1.7.2"
