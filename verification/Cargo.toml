[package]
name = "ctgen"
version = "0.1.0"
edition = "2021"
publish = false

[dependencies]
anyhow = "=1.0.104"
chrono = "=0.4.45"
clap = { version = "=4.6.7", features = ["derive"] }
console = "=0.16.6"
database-reflection = { version = "=0.1.5", features = ["mariadb"] }
dialoguer = "=0.12.0"
dirs = "=7.0.0"
dotenvy = "=0.15.7"
env_logger = "=0.11.11"
handlebars = { version = "=6.4.4", features = ["dir_source", "script_helper"] }
handlebars-concat = "=0.3.0"
handlebars-inflector = "=0.3.0"
indexmap = "=2.14.2"
log = "=0.4.34"
regex = "=1.13.1"
serde = { version = "=1.0.229", features = ["derive"] }
serde_json = "=1.0.154"
sqlx = { version = "=0.8.6", default-features = false, features = ["mysql", "runtime-tokio"] }
tokio = { version = "=1.54.1", features = ["full"] }
toml = "=1.1.8"
walkdir = "=2.5.0"
