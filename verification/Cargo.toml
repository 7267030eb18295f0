[package]
name = "editor"
version = "0.1.0"
edition = "2021"
publish = false

[dependencies]
iced = { version = "=0.12.1", default-features = false, features = ["highlighter", "tokio"] }
iced_aw = { version = "=0.9.3", default-features = false, features = ["tab_bar"] }
rfd = { version = "0.15", default-features = false, features = ["xdg-portal", "tokio"] }
tokio = { version = "1", features = ["fs"] }
