[package]
name = "bevy_pixel_buffer"
version = "0.5.0"
edition = "2021"
publish = false

[dependencies]
bevy = { version = "0.11", default-features = false }
bytemuck = "1"
rand = "0.8"
rayon = "1"
thiserror = "1"
