[package]
name = "splitop"
version = "0.1.0"
edition = "2021"
publish = false

[dependencies]
itertools = "*"
ndarray = "*"
ndarray-npy = "*"
ndrustfft = "*"
num-complex = "*"
rayon = "*"
