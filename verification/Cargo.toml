[package]
name = "autostac"
version = "0.1.0"
edition = "2021"
publish = false

[dependencies]
aws-sdk-s3 = { version = "1", default-features = false }
chrono = { version = "0.4", features = ["serde"] }
gdal = "*"
geo = "*"
geo-types = "*"
geojson = "*"
http = "*"
proj = "*"
rocket = { version = "0.5", features = ["json"] }
serde = { version = "1", features = ["derive"] }
serde_json = "1"
structopt = "0.3"
structopt-toml = "*"
url = "2"
wkt = "*"
