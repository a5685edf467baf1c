[package]
name = "scheme_stream"
version = "0.1.0"
edition = "2021"
publish = false

[dependencies]
futures = { version = "0.3", default-features = false, features = ["std", "executor"] }
windows = { version = "0.52", features = ["Foundation", "UI_ViewManagement"] }
