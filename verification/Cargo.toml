[package]
name = "ciya_lib"
version = "0.1.0"
edition = "2021"
publish = false

[dependencies]
anyhow = "=1.0.104"
clap = { version = "=4.6.7", features = ["derive"] }
dirs = "=7.0.0"
image = { version = "=0.25.10", default-features = false, features = ["png"] }
imageproc = { version = "=0.25.1", default-features = false }
itertools = "=0.12.1"
lazy_static = "=1.5.1"
log = "=0.4.34"
mcai-onnxruntime = "=0.0.15"
mime = "=0.3.17"
ndarray = { version = "=0.15.6", features = ["rayon"] }
nshare = "=0.10.0"
num = "=0.4.3"
opencv = "=0.101.1"
pretty_env_logger = "=0.5.0"
reqwest = { version = "=0.11.27", default-features = false, features = ["blocking", "rustls-tls"] }
shellwords = "=1.1.0"
# Not used by this crate itself: teloxide-core depends on it, and from 0.1.2
# on it asks for a newer compiler than the one this crate is built with.
takecell = "=0.1.1"
tap = "=1.0.1"
teloxide = { version = "=0.12.2", default-features = false, features = ["macros", "rustls", "ctrlc_handler"] }
thiserror = "=1.0.69"
tokio = { version = "=1.54.1", features = ["rt-multi-thread", "macros"] }
webp = "=0.3.1"
