[package]
name = "rtorrent-xmlrpc-bindings"
version = "0.1.0"
edition = "2021"
publish = false

[dependencies]
xmlrpc = "0.15"
