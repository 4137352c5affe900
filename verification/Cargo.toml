[package]
name = "duchess"
version = "0.1.0"
edition = "2021"
publish = false

[dependencies]
cesu8 = "1.1.0"
jni-sys = "0.3.0"
once_cell = "1"
thiserror = "1"
