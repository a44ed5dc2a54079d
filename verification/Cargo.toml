[package]
name = "topcoder_rating"
version = "0.1.0"
edition = "2021"
publish = false

[dependencies]
rayon = "=1.12.0"
statrs = "=0.19.1"
rustc_apfloat = "=0.2.3"
ieee-apsqrt = "=0.1.1"
