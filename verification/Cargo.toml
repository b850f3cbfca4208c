[package]
name = "grpc_mem_bench"
version = "0.1.0"
edition = "2021"
publish = false

[dependencies]
rand = "*"
anyhow = "*"
clap = { version = "*", features = ["derive"] }
docker-api = "*"
humantime = "*"
log = "*"
pretty_env_logger = "*"
prost = "*"
prost-types = "*"
tokio = { version = "*", features = ["macros", "rt-multi-thread", "time", "signal", "net"] }
tokio-stream = "*"
tonic = "*"
