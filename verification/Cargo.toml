[package]
name = "dicom_test_files"
version = "0.1.0"
edition = "2021"
publish = false

[dependencies]
sha2 = "*"
zstd = "*"
ureq = "*"
tempfile = "*"
