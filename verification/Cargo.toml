[package]
name = "dsp_tool_box_rs"
version = "0.1.0"
edition = "2021"
publish = false

[dependencies]
float-cmp = "*"
