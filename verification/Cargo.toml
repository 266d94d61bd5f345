[package]
name = "torrent_assistant"
version = "0.1.0"
edition = "2021"
publish = false

[dependencies]
aes-gcm = "=0.10.3"
base64 = "=0.21.7"
chrono = "=0.4.45"
rand = "=0.8.8"
scraper = "=0.29.0"
url = "=2.5.8"
uuid = { version = "=1.29.0", features = ["v4"] }
log = "=0.4.34"
env_logger = "=0.11.11"
dotenvy = "=0.15.7"
futures = "=0.3.34"
serde = { version = "=1.0.229", features = ["derive"] }
reqwest = { version = "=0.12.28", default-features = false, features = ["json", "rustls-tls"] }
tokio = { version = "=1.54.1", features = ["rt-multi-thread", "macros"] }
teloxide = { version = "=0.12.2", default-features = false, features = ["macros", "rustls", "ctrlc_handler"] }
# Named only to hold it back: teloxide depends on takecell, and the
# release after this one asks for a newer compiler than the others do.
takecell = "=0.1.1"
transmission-rpc = "=0.4.3"
diesel = { version = "=2.3.14", features = ["postgres", "r2d2", "uuid", "chrono"] }
