[package]
name = "corporation"
version = "0.1.0"
edition = "2021"
publish = false

[dependencies]
gfx-hal = "=0.2.1"
gfx-backend-vulkan = "=0.2.3"
winit = "0.19"
image = "=0.21.3"
shaderc = "=0.3.16"
assimp = "=0.3.1"
cgmath = "=0.16.1"
chrono = "=0.4.45"
log = "=0.4.34"
env_logger = "=0.6.2"
error-chain = "=0.12.4"
