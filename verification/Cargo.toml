[package]
name = "chroma_ffi"
version = "0.1.0"
edition = "2021"
publish = false

[dependencies]
libc = "=0.2.190"
serde_json = "=1.0.151"
tokio = { version = "=1.53.2", features = ["rt", "rt-multi-thread"] }
uuid = "=1.27.0"
