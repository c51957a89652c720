[package]
name = "shiki"
version = "0.1.0"
edition = "2021"
publish = false

[dependencies]
actix = { version = "0.13", default-features = false, features = ["macros"] }
actix-cors = "0.6"
actix-multipart = "0.6"
actix-session = { version = "0.9", default-features = false, features = ["redis-rs-session"] }
actix-web = { version = "4", default-features = false, features = ["macros", "cookies"] }
anyhow = "1"
chrono = { version = "=0.4.45", default-features = false, features = ["now"] }
cloudinary = "0.4"
deadpool-redis = { version = "0.14", default-features = false, features = ["rt_tokio_1"] }
dotenv = "0.15"
env_logger = { version = "0.10", default-features = false }
futures = "0.3"
futures-util = "0.3"
image = { version = "=0.24.9", default-features = false, features = ["gif", "jpeg", "ico", "png", "pnm", "tga", "tiff", "webp", "bmp", "hdr", "dxt", "dds", "farbfeld", "qoi"] }
log = "0.4"
mongodb = "2"
rand = "=0.8.8"
redis-derive = "0.1"
rs-snowflake = "=0.6.0"
sanitize-filename = "=0.5.0"
serde = { version = "1", features = ["derive"] }
serde_json = "=1.0.154"
tokio = { version = "1", features = ["fs", "rt"] }
uuid = { version = "=1.29.0", features = ["v4"] }
validator = { version = "=0.16.1", features = ["derive", "unic"] }
webrtc-unreliable = "0.5"
