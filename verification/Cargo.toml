[package]
name = "voxport"
version = "0.1.0"
edition = "2021"
publish = false

[dependencies]
clap = "*"
dot_vox = "*"
stl_io = "*"
collada_io = "*"
