[package]
name = "vector_db"
version = "0.1.0"
edition = "2021"
publish = false

[dependencies]
bytemuck = "=1.25.2"
cxx = "=1.0.202"
libm = "=0.2.16"
nalgebra = "=0.35.0"
pyo3 = "=0.29.3"
rusqlite = { version = "=0.40.2", features = ["bundled"] }
rustc_apfloat = "=0.2.3"
usearch = "=2.26.3"
