[package]
name = "benchbot"
version = "0.1.0"
edition = "2021"
publish = false

[dependencies]
clap = "2.31"
influx_db_client = "0.3"
rayon = "1.0"
