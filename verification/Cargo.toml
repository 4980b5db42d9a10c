[package]
name = "message_row"
version = "0.1.0"
edition = "2021"
publish = false

[dependencies]
anyhow = "1"
async-channel = "2"
chrono = "0.4"
gdk-pixbuf = "*"
gettext-rs = { version = "0.7", features = ["gettext-system"] }
gtk4 = "*"
libadwaita = "*"
pulldown-cmark = "*"
serde_json = "1"
tracing = "0.1"
ureq = "3"
url = "2"
