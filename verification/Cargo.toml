[package]
name = "nautilus_watch"
version = "0.1.0"
edition = "2021"
publish = false

[dependencies]
scraper = "*"
serde_json = "*"
reqwest = { version = "*", default-features = false, features = ["blocking"] }
diesel = { version = "2", features = ["postgres", "r2d2", "chrono"] }
chrono = "*"
dotenv = "*"
