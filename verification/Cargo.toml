[package]
name = "rln_bridge"
version = "0.1.0"
edition = "2021"
publish = false

[dependencies]
ark-bn254 = "=0.5.0"
ark-ff = "=0.5.0"
ark-groth16 = "=0.5.0"
ark-serialize = "=0.5.0"
ark-std = "=0.5.0"
hex = "=0.4.3"
jni = "=0.21.1"
rln = { version = "=0.8.0", features = ["arkzkey"] }
