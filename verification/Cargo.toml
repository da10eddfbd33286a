[package]
name = "crawler"
version = "0.1.0"
edition = "2021"
publish = false

[dependencies]
url = "2"
lru-cache = "0.1"
scraper = "*"
texting_robots = "*"
ureq = { version = "2", features = ["json"] }
serde = { version = "1", features = ["derive"] }
serde_json = "1"
config = { version = "*", default-features = false, features = ["toml"] }
log = "0.4"
pretty_env_logger = "*"
color-eyre = "*"
