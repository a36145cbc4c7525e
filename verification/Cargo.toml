[package]
name = "style_ref_cell"
version = "0.1.0"
edition = "2021"
publish = false

[dependencies]
heapsize = "=0.4.2"
