[package]
name = "serde-graphql-input"
version = "0.1.0"
edition = "2021"
publish = false

[dependencies]
itoa = "1"
serde = "1"
