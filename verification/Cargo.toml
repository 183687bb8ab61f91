[package]
name = "highway_fever"
version = "0.1.0"
edition = "2021"
publish = false

[dependencies]
rusty_engine = "5"
rand = "0.8"
