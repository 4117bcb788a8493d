[package]
name = "search-history"
version = "0.1.0"
edition = "2021"
publish = false

[dependencies]
anyhow = "=1.0.104"
grep = "=0.3.2"
ignore = "=0.4.33"
memory-stats = "=1.2.0"
neovim-lib = "=0.6.1"
# neovim-lib reads messages with rmpv 0.4, which compiles against rmp only up to 0.8.14.
rmp = "=0.8.14"
