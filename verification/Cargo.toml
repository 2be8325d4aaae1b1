[package]
name = "sui_data_provider"
version = "0.1.0"
edition = "2021"
publish = false

[dependencies]
async-graphql = "6.0.11"
async-trait = "0.1"
bcs = "0.1.6"
