[package]
name = "pointercrate"
version = "0.1.0"
edition = "2021"
publish = false

[dependencies]
actix = "=0.13.5"
actix-web = "=4.18.1"
diesel = { version = "=2.3.14", features = ["postgres", "r2d2", "network-address"] }
ipnetwork = "=0.21.1"
jsonwebtoken = "=9.3.1"
log = "=0.4.34"
serde = { version = "=1.0.229", features = ["derive"] }
serde_derive = "=1.0.229"
serde_urlencoded = "=0.7.1"
