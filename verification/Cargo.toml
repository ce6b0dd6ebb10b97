[package]
name = "osm_points"
version = "0.1.0"
edition = "2021"
publish = false

[dependencies]
clap = "2"
osmpbfreader = "*"
postgis = "0.9"
postgres = "0.19"
postgres-derive = "0.4"
postgres-types = "0.2"
