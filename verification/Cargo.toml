[package]
name = "packybara"
version = "0.1.0"
edition = "2021"
publish = false

[dependencies]
itertools = "*"
tokio-postgres = "*"
postgres = "*"
deadpool-postgres = "*"
serde = { version = "1", features = ["derive"] }
serde_json = "1"
simple_xml_serialize = "*"
simple_xml_serialize_macro = "*"
structopt = "0.3"
prettytable-rs = "*"
async-trait = "*"
log = "*"
env_logger = "*"
