[package]
name = "spicedb_client"
version = "0.1.0"
edition = "2021"
publish = false

[dependencies]
tonic = "0.12"
http = "1"
prost = "0.13"
prost-types = "0.13"
bytes = "1"
futures = "0.3"
thiserror = "1"
