[package]
name = "chatguard"
version = "0.1.0"
edition = "2021"
publish = false

[dependencies]
teloxide = "=0.17.0"
tokio = { version = "=1.53.2", features = ["macros", "rt-multi-thread"] }
dptree = "=0.5.1"
futures = "=0.3.34"
log = "=0.4.34"
pretty_env_logger = "=0.5.0"
dotenv = "=0.15.0"
takecell = "=0.1.1"
