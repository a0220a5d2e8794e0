[package]
name = "dicom_catalog"
version = "0.1.0"
edition = "2021"
publish = false

[dependencies]
clap = { version = "*", features = ["derive"] }
dicom = { version = "*", default-features = false }
env_logger = "*"
fs_extra = "*"
log = "*"
rayon = "*"
tantivy = "*"
thiserror = "*"
urlencoding = "*"
