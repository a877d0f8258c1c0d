[package]
name = "arkui_parser"
version = "0.1.0"
edition = "2021"
publish = false

[dependencies]
oxc_allocator = "=0.143.0"
oxc_ast = "=0.143.0"
oxc_span = "=0.143.0"
