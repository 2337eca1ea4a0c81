[package]
name = "reboot_lib"
version = "0.1.0"
edition = "2021"
publish = false

[dependencies]
bitflags = "2"
volatile-register = "0.2"
bytemuck = "1"
linked_list_allocator = "0.10"
fatfs-embedded = "*"
