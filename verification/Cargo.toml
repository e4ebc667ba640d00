[package]
name = "migration"
version = "0.1.0"
edition = "2021"
publish = false

[dependencies]
async-trait = "*"
sea-orm-migration = { version = "*", default-features = false }
