[package]
name = "yagpt_video_to_text"
version = "0.1.0"
edition = "2021"
publish = false

[dependencies]
jsonwebtoken = "=9.3.1"
serde = { version = "=1.0.229", features = ["derive"] }
serde_json = { version = "=1.0.154", features = ["preserve_order"] }
tokio = { version = "=1.54.1", features = ["full"] }
tonic = { version = "=0.12.3", features = ["tls"] }
prost = "=0.13.5"
teloxide = { version = "=0.13.0", default-features = false, features = ["ctrlc_handler", "rustls"] }
takecell = "<0.1.2"
dptree = "=0.3.0"
aws-config = { version = "=1.13.0", default-features = false, features = ["rt-tokio", "behavior-version-latest"] }
aws-sdk-s3 = { version = "=1.157.0", default-features = false, features = ["rt-tokio"] }
youtube_dl = { version = "=0.10.0", features = ["tokio"] }
pandoc = "=0.8.11"
clap = { version = "=4.6.7", features = ["derive"] }
log = "=0.4.35"
pretty_env_logger = "=0.5.0"
