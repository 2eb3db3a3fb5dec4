[package]
name = "agent_escrow"
version = "0.1.0"
edition = "2021"
publish = false
