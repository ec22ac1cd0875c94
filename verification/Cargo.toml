[package]
name = "graphql_cli_tools"
version = "0.1.0"
edition = "2021"
publish = false

[dependencies]
clap = { version = "*", features = ["derive"] }
async-graphql-parser = "*"
parking_lot = "*"
