[package]
name = "oscbot"
version = "0.1.0"
edition = "2021"
publish = false

[dependencies]
dotenv = "*"
futures-util = "*"
google-youtube3 = "*"
osu-db = { version = "*", default-features = false }
poise = "*"
quick-xml = "*"
reqwest = { version = "*", features = ["stream"] }
rosu-v2 = "*"
sqlx = { version = "*", features = ["sqlite", "runtime-tokio"] }
tokio = { version = "*", features = ["full"] }
tracing = "*"
zip = { version = "*", default-features = false, features = ["deflate"] }
