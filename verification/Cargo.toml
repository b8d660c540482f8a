[package]
name = "licensebat"
version = "0.1.0"
edition = "2021"
publish = false

[dependencies]
anyhow = "1"
askalono = "*"
cargo-lock = "*"
dotenv = "*"
easy-scraper = "*"
futures = "0.3"
html2text = "*"
package-lock-json-parser = "*"
reqwest = { version = "*", features = ["json"] }
scraper = "*"
serde = { version = "1", features = ["derive"] }
serde_json = "1"
serde_yaml = "*"
structopt = "*"
thiserror = "*"
tokio = { version = "1", features = ["macros", "rt-multi-thread", "fs"] }
toml = "*"
tracing = "*"
tracing-subscriber = { version = "*", features = ["env-filter", "json"] }
yarn-lock-parser = "*"
