[package]
name = "libpq"
version = "0.1.0"
edition = "2021"
publish = false

[dependencies]
neon = "=1.1.2"
pq-sys = "=0.7.8"
openssl-sys = "=0.9.118"
polling = "=3.11.0"
