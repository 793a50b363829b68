[package]
name = "king-pusha"
version = "0.1.0"
edition = "2021"
publish = false

[dependencies]
actix-web = "4"
dotenv = "0.15"
mime_guess = "2"
paperclip = { version = "0.8", features = ["actix4"] }
serde = { version = "1", features = ["derive"] }
tokio = { version = "1", features = ["fs", "macros", "rt", "sync"] }
tracing = "0.1"
tracing-subscriber = "0.3"
web-push = "0.9"

[dev-dependencies]
base64 = "0.21"
ece = "2"
jwt-simple = "0.11"
