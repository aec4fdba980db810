[package]
name = "jira_rs"
version = "0.1.0"
edition = "2021"
publish = false

[dependencies]
anyhow = "1"
grab = "*"
itoa = "1"
jsonp = "*"
reqwest = { version = "0.11", default-features = false, features = ["json"] }
serde = { version = "1", features = ["derive"] }
serde_json = { version = "1", features = ["raw_value"] }
smol_str = "*"
structopt = "0.3"
thiserror = "1"
tokio = { version = "1", features = ["macros", "rt-multi-thread"] }
url = "2"
