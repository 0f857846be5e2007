[package]
name = "zentiff"
version = "0.1.0"
edition = "2021"
publish = false

[dependencies]
tiff = "0.11"
zenpixels = "*"
zencodec = "*"
enough = "*"
whereat = "*"
bytemuck = "*"
thiserror = "*"
half = "*"
