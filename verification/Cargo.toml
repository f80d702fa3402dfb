[package]
name = "ec_demo"
version = "0.1.0"
edition = "2021"
publish = false

[dependencies]
clap = { version = "=4.6.7", features = ["derive"] }
color-eyre = "=0.6.5"
crossterm = "=0.29.0"
defmt-decoder = "=1.2.0"
ratatui = "=0.30.2"
rzcobs = "=0.1.2"
self_cell = "=1.3.0"
strum = { version = "=0.28.0", features = ["derive"] }
tui-input = "=0.15.5"

[dev-dependencies]
object = { version = "=0.36.7", default-features = false, features = ["write_core", "elf", "std"] }
