[package]
name = "termusic"
version = "0.1.0"
edition = "2021"
publish = false

[dependencies]
shellexpand = "2"
log = "0.4"
crossterm = "0.20"
tuirealm = "0.6"
tui-realm-treeview = "0.3"
