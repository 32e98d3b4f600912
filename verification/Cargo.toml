[package]
name = "grex_nc_dump_test"
version = "0.1.0"
edition = "2021"
publish = false

[dependencies]
color-eyre = "*"
ndarray = "*"
netcdf = { version = "*", features = ["ndarray"] }
num-complex = "*"
rand = "*"
rayon = "*"
