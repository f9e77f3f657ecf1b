[package]
name = "fusion"
version = "0.1.0"
edition = "2021"
publish = false

[dependencies]
byteorder = "*"
flexbuffers = "=25.12.19"
nanoid = "=0.5.0"
thiserror = "=2.0.21"
