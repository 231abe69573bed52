[package]
name = "authz_gate"
version = "0.1.0"
edition = "2021"
publish = false

[dependencies]
hex = "=0.4.3"
cosmwasm-std = { version = "=2.3.5", features = ["cosmwasm_2_0"] }
cosmwasm-schema = "=2.3.5"
cw2 = "=2.0.0"
cw-storage-plus = "=2.0.0"

[dev-dependencies]
rlp = "=0.6.1"
prost = "=0.14.4"
prost-types = "=0.14.4"
