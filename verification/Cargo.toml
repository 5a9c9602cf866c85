[package]
name = "typed_shmem"
version = "0.3.0"
edition = "2021"
publish = false

[dependencies]
getrandom = "0.2"
oorandom = "11.1"
nix = { version = "0.25", features = ["mman", "fs"] }
zerocopy = "0.7"
winapi = { version = "0.3", features = ["memoryapi", "handleapi", "errhandlingapi", "winnt", "winerror", "minwindef"] }
