[package]
name = "postprocessing"
version = "0.1.0"
edition = "2021"
publish = false

[dependencies]
glob = "0.3"
globset = "0.4"
indicatif = { version = "0.16", features = ["rayon"] }
parse_link_header = "0.3"
rayon = "1"
regex = "1"
reqwest = { version = "0.11", default-features = false, features = ["blocking", "json"] }
serde = { version = "1", features = ["derive"] }
serde_json = "1"
structopt = "0.3"
url = "2"
