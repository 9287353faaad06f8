[package]
name = "yasl_core"
version = "0.1.0"
edition = "2021"
publish = false

[dependencies]
proc-macro2 = "1"
syn = { version = "1", features = ["full"] }
shaderc = "*"
spirv_cross = { version = "*", features = ["hlsl"] }
