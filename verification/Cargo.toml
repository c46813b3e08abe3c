[package]
name = "system_runtimes"
version = "0.1.0"
edition = "2021"
publish = false

[dependencies]
staging-xcm = { version = "=25.0.0", default-features = false }
sp-weights = { version = "=37.0.0", default-features = false }
frame-support = { version = "=49.0.0", default-features = false }
frame-system = { version = "=49.0.0", default-features = false }
sp-genesis-builder = { version = "=0.25.0", default-features = false }
pallet-multisig = { version = "*", default-features = false }
pallet-utility = { version = "*", default-features = false }
pallet-asset-conversion-tx-payment = { version = "*", default-features = false }
log = "=0.4.34"
serde_json = "=1.0.154"
