[package]
name = "wkavu"
version = "0.1.0"
edition = "2021"
publish = false

[dependencies]
actix-cors = "=0.7.2"
actix-files = "=0.7.2"
actix-web = { version = "=4.18.1", default-features = false, features = ["macros"] }
anyhow = "=1.0.104"
async-std = "=1.13.2"
chrono = "=0.4.45"
clap = { version = "=4.6.7", features = ["env"] }
cronjob = "=0.4.17"
env_logger = { version = "=0.11.11", default-features = false }
headless_chrome = "=1.0.22"
lazy_static = "=1.5.1"
log = "=0.4.34"
log4rs = { version = "=1.4.0", default-features = false, features = ["config_parsing", "yaml_format", "console_appender", "file_appender"] }
magnet-url = "=2.0.0"
rbatis = "=4.9.8"
rbdc-sqlite = "=4.9.5"
rbs = "=4.8.4"
regex = "=1.13.1"
reqwest = { version = "=0.12.28", default-features = false, features = ["rustls-tls"] }
scraper = "=0.29.0"
serde = { version = "=1.0.229", features = ["derive"] }
serde_yaml = "=0.9.34"
thiserror = "=2.0.21"
xml-rs = "=0.8.29"
