[package]
name = "monkebucko"
version = "0.1.0"
edition = "2021"
publish = false

[dependencies]
bevy = { version = "=0.16.1", default-features = false, features = ["std", "multi_threaded", "async_executor", "bevy_log", "bevy_asset", "bevy_color", "bevy_state", "bevy_window", "bevy_render", "bevy_core_pipeline", "bevy_sprite", "bevy_text", "bevy_ui", "bevy_pbr", "bevy_gltf", "bevy_scene", "bevy_animation", "bevy_picking", "bevy_mesh_picking_backend", "bevy_sprite_picking_backend", "bevy_ui_picking_backend"] }
bevy-persistent = { version = "=0.8.0", default-features = false, features = ["toml", "ron"] }
bevy_ecs_tilemap = { version = "0.16", default-features = false }
bevy_prng = { version = "=0.11.3", default-features = false, features = ["wyrand"] }
bevy_rand = { version = "=0.11.3", default-features = false, features = ["wyrand"] }
bevy_text_animation = { version = "=0.4.2", default-features = false }
dirs = "=6.0.0"
nohash-hasher = "=0.2.0"
rand_core = "=0.9.5"
serde = { version = "=1.0.229", features = ["derive"] }
thiserror = "=2.0.21"
