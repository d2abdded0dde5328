[package]
name = "swiftlink"
version = "0.1.0"
edition = "2021"
publish = false

[dependencies]
rand = "*"
url = "*"
serde = { version = "*", features = ["derive"] }
serde_json = "*"
thiserror = "*"
log = "*"
env_logger = "*"
toml = "*"
clap = { version = "*", features = ["derive"] }
actix-web = { version = "*", default-features = false, features = ["macros"] }
sqlx = { version = "*", default-features = false, features = ["runtime-tokio", "postgres", "sqlite"] }
reqwest = { version = "*", default-features = false, features = ["blocking", "json"] }
