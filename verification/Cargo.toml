[package]
name = "image-convert"
version = "0.1.0"
edition = "2021"
publish = false

[dependencies]
ico = "*"
magick_rust = "*"
once_cell = "*"
regex = "*"
str-utils = "*"
