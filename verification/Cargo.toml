[package]
name = "tower_livereload"
version = "0.1.0"
edition = "2021"
publish = false

[dependencies]
bytes = "1"
http = "1"
http-body = "1"
pin-project-lite = "0.2"
tokio = { version = "1", default-features = false, features = ["sync", "rt"] }
tower = { version = "0.5", default-features = false }
