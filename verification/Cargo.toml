[package]
name = "vscore"
version = "0.1.0"
edition = "2021"
publish = false

[dependencies]
jni = "0.17"
packed_simd = "0.3"
rand = "0.8"
