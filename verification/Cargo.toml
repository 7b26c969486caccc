[package]
name = "webaudioprov"
version = "0.1.0"
edition = "2021"
publish = false

[dependencies]
actix-cors = "=0.7.2"
actix-files = "=0.7.2"
actix-web = "=4.18.1"
directories = "=6.0.0"
dotenv = "=0.15.0"
envy = "=0.4.2"
open = "=5.4.5"
rustube = "=0.6.0"
serde = { version = "=1.0.229", features = ["derive"] }
tokio = { version = "=1.54.1", features = ["fs", "rt"] }
youtube_dl = { version = "=0.8.1", features = ["tokio"] }
