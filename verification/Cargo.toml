[package]
name = "launchpad"
version = "0.1.0"
edition = "2021"
publish = false

[dependencies]
ink = { version = "4", features = ["std"] }
ink_prelude = { version = "4", features = ["std"] }
openbrush = { version = "3", features = ["std", "psp34", "ownable"] }
parity-scale-codec = { version = "3", features = ["derive"] }
scale-info = { version = "2", features = ["derive"] }
