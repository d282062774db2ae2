[package]
name = "bevy_smud"
version = "0.1.0"
edition = "2021"
publish = false

[dependencies]
uuid = { version = "=1.29.0", features = ["v4"] }
fixedbitset = "=0.5.7"
bytemuck = { version = "=1.25.2", features = ["derive"] }
bevy = { version = "=0.17.3", default-features = false, features = ["std", "bevy_render", "bevy_core_pipeline", "bevy_asset", "bevy_color", "bevy_picking"] }
bevy_egui = { version = "0.37", default-features = false, features = ["render"] }
