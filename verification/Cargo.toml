[package]
name = "spacetimedb_expr"
version = "0.1.0"
edition = "2021"
publish = false

[dependencies]
anyhow = "=1.0.104"
bigdecimal = "=0.4.11"
ethnum = "=1.5.3"
spacetimedb-lib = "=1.12.0"
spacetimedb-sats = "=1.12.0"
spacetimedb-schema = "=1.12.0"
spacetimedb-sql-parser = "=1.12.0"
