[package]
name = "saddle_camera_top_down_camera"
version = "0.1.0"
edition = "2021"
publish = false

[dependencies]
bevy = { version = "=0.18.1", default-features = false, features = ["std", "async_executor", "keyboard", "mouse", "bevy_window", "bevy_camera", "bevy_gizmos", "bevy_color"] }
