[package]
name = "ethkey_gen"
version = "0.1.0"
edition = "2021"
publish = false

[dependencies]
docopt = "=1.1.1"
serde = { version = "=1.0.229", features = ["derive"] }
tiny-keccak = { version = "=2.0.2", features = ["keccak"] }
rand = "=0.10.3"
libsecp256k1 = "=0.7.2"

[dev-dependencies]
rustc-serialize = "=0.3.25"
