[package]
name = "port_forwarding_tool"
version = "0.1.0"
edition = "2021"
publish = false

[dependencies]
leptos = { version = "=0.4.10", features = ["csr"] }
leptos_meta = { version = "=0.4.10", features = ["csr"] }
leptos_router = { version = "=0.4.10", features = ["csr"] }
serde = { version = "1", features = ["derive"] }
tracing = "0.1"
