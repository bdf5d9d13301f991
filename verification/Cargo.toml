[package]
name = "geozero"
version = "0.1.0"
edition = "2021"
publish = false

[dependencies]
gdal = "*"

[dev-dependencies]
serde_json = "*"
geo-types = "*"
