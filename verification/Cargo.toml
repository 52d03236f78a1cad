[package]
name = "deepfilter_vst"
version = "0.1.0"
edition = "2021"
publish = false

[dependencies]
rtrb = "=0.4.0"
rubato = "=0.14.1"
ndarray = "=0.17.2"
