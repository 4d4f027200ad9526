[package]
name = "pinocchio_token_interface"
version = "0.1.0"
edition = "2021"
publish = false

[dependencies]
pinocchio = "=0.12.0"
pinocchio-token = "=0.8.0"
pinocchio-token-2022 = "=0.5.0"
solana-account-view = "=3.0.0"
solana-program-error = "=3.0.1"
solana-program-pack = "=3.1.0"
spl-token-2022-interface = "=4.0.0"
spl-token-group-interface = "=0.7.2"
spl-token-metadata-interface = "=1.0.1"
spl-type-length-value = "=0.9.1"
bytemuck = "=1.25.2"
