[package]
name = "graphql_core"
version = "0.1.0"
edition = "2021"
publish = false

[dependencies]
futures = "0.3"
serde = "1"
serde_json = "1"
