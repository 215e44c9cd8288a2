[package]
name = "batched_address_tree"
version = "0.1.0"
edition = "2021"
publish = false

[dependencies]
light-merkle-tree-metadata = "*"
light-utils = "*"
solana-program = "*"
borsh = "*"
