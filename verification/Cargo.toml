[package]
name = "dreampipe"
version = "0.1.0"
edition = "2021"
publish = false

[dependencies]
drm = "=0.14.1"
gbm = { version = "=0.18.0", default-features = false, features = ["drm-support"] }
ash = "=0.38.0"
wgpu = "=26.0.1"
tokio = { version = "=1.53.2", features = ["rt"] }
image = "=0.25.10"
notify = "=8.2.0"
crossbeam = "=0.8.5"
microxdg = "=0.2.0"
nix = { version = "=0.31.3", features = ["fs"] }
taffy = "=0.14.0"
tracing = "=0.1.44"
rand = "=0.10.3"
