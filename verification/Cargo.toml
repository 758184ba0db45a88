[package]
name = "qcow2_fuse"
version = "0.1.0"
edition = "2021"
publish = false

[dependencies]
daemonize = "=0.5.0"
env_logger = "=0.11.11"
fuse = "=0.3.1"
getopts = "=0.2.24"
libc = "=0.2.190"
log = "=0.4.34"
positioned-io = "=0.2.2"
qcow2 = "=0.1.2"
time = "=0.1.45"
