[package]
name = "f1_game_packet_parser"
version = "1.0.0"
edition = "2021"

[dev-dependencies]
binrw = "*"
