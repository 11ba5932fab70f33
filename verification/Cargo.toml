[package]
name = "danger_zone"
version = "0.1.0"
edition = "2021"
publish = false

[dependencies]
rand = "*"
glfw = "*"
gl = "*"
ambisonic = "*"
cgmath = "*"
vek = "*"
tobj = "*"
image = "*"
itertools = "*"
log = "*"
log4rs = "*"
lazy_static = "*"
memoffset = "*"
num = "*"
rayon = "*"
worldgen = "*"
