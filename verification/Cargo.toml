[package]
name = "graph_symdiff"
version = "0.1.0"
edition = "2021"
publish = false

[dependencies]
hashbrown = "*"
petgraph = "*"
pyo3 = "*"
