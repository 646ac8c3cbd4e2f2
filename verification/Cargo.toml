[package]
name = "better_bar"
version = "0.1.0"
edition = "2021"
publish = false

[dependencies]
anyhow = "*"
battery = "*"
chrono = "*"
clap = { version = "*", features = ["derive"] }
gtk4 = "*"
gtk4-layer-shell = "*"
hyprland = "*"
lazy_static = "*"
once_cell = "*"
serde = { version = "*", features = ["derive"] }
tokio = { version = "*", features = ["full"] }
toml = "*"
zbus = "*"
zvariant = "*"
