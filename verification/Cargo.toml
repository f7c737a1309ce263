[package]
name = "sigmabus"
version = "0.1.0"
edition = "2021"
publish = false

[dependencies]
ark-bn254 = "=0.4.0"
ark-crypto-primitives = { version = "=0.4.0", features = ["crh", "sponge", "r1cs", "snark"] }
ark-ec = "=0.4.2"
ark-ff = "=0.4.2"
ark-groth16 = "=0.4.0"
ark-r1cs-std = "=0.4.0"
ark-relations = "=0.4.0"
ark-serialize = "=0.4.2"
ark-std = "=0.4.0"
