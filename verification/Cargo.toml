[package]
name = "twitchbrite"
version = "0.1.0"
edition = "2021"
publish = false

[dependencies]
anyhow = "=1.0.104"
crossbeam-channel = "=0.5.17"
crossterm = "=0.25.0"
hueclient = "0.4"
itertools = "=0.10.5"
rand = "=0.8.8"
serde = { version = "=1.0.229", features = ["derive"] }
toml = "=0.5.11"
tui = "=0.19.0"
tuirealm = "=1.9.2"
unicode-segmentation = "=1.13.3"
