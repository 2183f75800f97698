[package]
name = "flow_graph"
version = "0.1.0"
edition = "2021"
publish = false

[dependencies]
petgraph = { version = "0.6", features = ["serde-1"] }
serde = { version = "1", features = ["derive"] }
dioxus = { version = "0.4", default-features = false, features = ["macro", "hooks", "html"] }
