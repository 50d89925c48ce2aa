[package]
name = "spotify-infos"
version = "0.1.0"
edition = "2021"
publish = false

[dependencies]
dbus = { version = "=0.9.12", features = ["vendored"] }

[dev-dependencies]
regex = "=1.13.1"
