[package]
name = "polars_rb_io"
version = "0.1.0"
edition = "2021"
publish = false

[dependencies]
magnus = "0.7"
serde_json = "1"
