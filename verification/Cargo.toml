[package]
name = "closure_ir"
version = "0.1.0"
edition = "2021"
publish = false

[dependencies]
libc = "=0.2.191"
llvm-sys = { version = "=60.6.0", features = ["no-llvm-linking", "disable-alltargets-init"] }
