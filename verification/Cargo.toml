[package]
name = "modal_seq"
version = "0.1.0"
edition = "2021"
publish = false

[dependencies]
portmidi = "=0.3.0"
