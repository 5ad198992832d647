[package]
name = "guillotine"
version = "0.1.0"
edition = "2021"
publish = false

[dependencies]
url = "1.7"
serde_json = "1.0"
reqwest = { version = "0.11", features = ["blocking", "json"] }
chrono = "0.4"
tree_magic = "0.2"
gtk = { version = "0.2", features = ["v3_12"] }
gio = "0.2"
glib = "0.3"
gdk-pixbuf = "0.2"
pango = "0.2"
libnotify = "1.0"
secret-service = "0.4"
