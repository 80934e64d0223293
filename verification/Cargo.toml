[package]
name = "chain_storage"
version = "0.1.0"
edition = "2021"
publish = false

[dependencies]
rusqlite = "*"
r2d2 = "*"
r2d2_sqlite = "*"
cryptoxide = "*"
eccoxide = "*"
