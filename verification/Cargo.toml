[package]
name = "textedit"
version = "0.1.0"
edition = "2021"
publish = false

[dependencies]
gettext-rs = { version = "0.7", features = ["gettext-system"] }
gtk = "0.9"
glib = "0.10"
gio = "0.9"
tokio = { version = "0.2", features = ["full"] }
