[package]
name = "component_scope_lint"
version = "0.1.0"
edition = "2021"
publish = false

[dependencies]
colored = "*"
swc_common = "*"
swc_ecma_ast = "*"
swc_ecma_parser = "*"
walkdir = "*"
