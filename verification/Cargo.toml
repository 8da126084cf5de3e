[package]
name = "native_stack_trace"
version = "0.1.0"
edition = "2021"
publish = false

[dependencies]
cpp_demangle = "*"
