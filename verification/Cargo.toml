[package]
name = "mermaid_it"
version = "0.1.0"
edition = "2021"
publish = false

[dependencies]
resvg = "*"
usvg = "*"
tiny-skia = "*"
image = "*"
webp = "*"
