[package]
name = "garage_backup_sensor"
version = "0.1.0"
edition = "2021"
publish = false

[dependencies]
cty = "=0.2.2"
defmt = "=0.3.101"
embedded-alloc = "=0.5.1"
