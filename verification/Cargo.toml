[package]
name = "kms_pipeline"
version = "0.1.0"
edition = "2021"
publish = false

[dependencies]
drm = "=0.14.1"
gbm = { version = "=0.18.0", default-features = false, features = ["drm-support"] }
