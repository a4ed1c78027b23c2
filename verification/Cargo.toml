[package]
name = "presence_sync"
version = "0.1.0"
edition = "2021"
publish = false

[dependencies]
chrono = "0.4"
dbus = "0.9"
discord-rich-presence = "*"
