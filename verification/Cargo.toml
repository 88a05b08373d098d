[package]
name = "cosmic-panel-button"
version = "0.1.0"
edition = "2021"
publish = false

[dependencies]
freedesktop-desktop-entry = "0.5"
