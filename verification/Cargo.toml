[package]
name = "transit_topo"
version = "0.1.0"
edition = "2021"
publish = false

[dependencies]
failure = "*"
gtfs-structures = { version = "*", default-features = false }
log = "*"
serde = { version = "*", features = ["derive"] }
serde_json = "*"
structopt = "*"
toml = "*"
ureq = { version = "*", features = ["json"] }
