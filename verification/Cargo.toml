[package]
name = "buckets_mdapi"
version = "0.1.0"
edition = "2021"
publish = false

[dependencies]
serde_json = "*"
slog = "*"
fast-rpc = "*"
cueball-postgres-connection = "=0.3.2"
cueball = "=0.3.5"
postgres = "=0.17.5"
serde = "*"
