[package]
name = "ironfish_sapling"
version = "0.1.0"
edition = "2021"
publish = false

[dependencies]
blstrs = "=0.6.2"
ff = "=0.12.1"
group = "=0.12.1"
ironfish-jubjub = "=0.1.0"
ironfish-bellperson = "=0.2.0"
zcash_note_encryption = "=0.2.0"
