[package]
name = "perceptron_select"
version = "0.1.0"
edition = "2021"
publish = false

[dependencies]
rand = "0.8"
three-d = { version = "0.15", features = ["egui-gui"] }
tokio = { version = "1", features = ["macros", "rt-multi-thread"] }
web-sys = { version = "0.3", features = ["console"] }
