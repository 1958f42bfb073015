[package]
name = "sshws"
version = "0.1.0"
edition = "2021"
publish = false

[dependencies]
base64 = "=0.22.1"
serde_json = "=1.0.154"
uuid = { version = "=1.29.0", features = ["v4"] }
reqwest = { version = "=0.12.28", default-features = false, features = ["json", "rustls-tls"] }
tokio = { version = "=1.54.1", features = ["full"] }
clap = { version = "=4.6.7", features = ["derive"] }
chrono = "=0.4.45"
dotenvy = "=0.15.7"
log = "=0.4.35"
pretty_env_logger = "=0.5.0"
sqlx = { version = "=0.8.6", default-features = false, features = ["runtime-tokio", "postgres", "chrono", "migrate"] }
teloxide = { version = "=0.17.0", default-features = false, features = ["rustls", "ctrlc_handler"] }
# Not called directly: teloxide depends on takecell, whose release 0.1.2 needs
# rustc 1.96; this pins the release that builds with rustc 1.95.
takecell = "=0.1.1"
