[package]
name = "odbc_core"
version = "0.1.0"
edition = "2021"
publish = false

[dependencies]
checked_int_cast = "*"
libc = "*"
