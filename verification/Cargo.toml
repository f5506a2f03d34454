[package]
name = "disasmap"
version = "0.1.0"
edition = "2021"
publish = false

[dependencies]
goblin = "*"
pdb = "*"
iced-x86 = "*"
command-run = "*"
