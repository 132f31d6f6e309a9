[package]
name = "space_station"
version = "0.1.0"
edition = "2021"
publish = false

[dependencies]
bevy = { version = "=0.7.0", default-features = false, features = ["bevy_winit", "render", "png", "x11"] }
bevy-inspector-egui = "=0.11.0"
# Nothing calls darling. It is named because bevy 0.7's derive crates use
# parts of syn that only syn's `full` feature holds and do not ask for the
# feature themselves; darling does, and without it bevy does not build.
darling = "=0.13.4"
rand = "=0.8.8"
ron = "=0.7.1"
serde = { version = "=1.0.229", features = ["derive"] }
