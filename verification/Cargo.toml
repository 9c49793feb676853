[package]
name = "opentok"
version = "0.1.0"
edition = "2021"
publish = false

[dependencies]
anyhow = "1"
byte-slice-cast = "1"
derive_more = "0.99"
glib = "0.15"
gstreamer = "0.18"
gstreamer-app = "0.18"
gstreamer-video = "0.18"
lazy_static = "1"
once_cell = "1"
thiserror = "1"
