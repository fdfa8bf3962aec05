[package]
name = "pipeworkmc"
version = "0.1.0"
edition = "2021"
publish = false

[dependencies]
cesu8 = "1"
serde = { version = "1", features = ["derive"] }
uuid = "1"
bevy_ecs = { version = "0.17", default-features = false, features = ["std"] }
bevy_app = { version = "0.17", default-features = false, features = ["std"] }
