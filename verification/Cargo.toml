[package]
name = "phosh-first-boot"
version = "0.1.0"
edition = "2021"
publish = false

[dependencies]
gtk4 = "0.10"
libadwaita = "0.8"
glib = "0.21"
glib-macros = "0.21"
gtk-macros = "0.3"
gettext-rs = "0.7"
zbus = "5"
libc = "0.2"
log = "0.4"
pretty_env_logger = "0.5"
serde = { version = "1", features = ["derive"] }
serde_json = "1"
toml = "*"
clap = { version = "4", features = ["derive"] }
