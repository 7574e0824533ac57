[package]
name = "hashbench"
version = "0.1.0"
edition = "2021"
publish = false

[dependencies]
ahash = { version = "=0.8.12", default-features = false }
crc32fast = "=1.5.2"
fnv = "=1.0.7"
fxhash = "=0.2.1"
highway = "=1.3.0"
komihash = "=0.5.0"
metrohash = "=1.0.7"
mur3 = "=0.1.0"
museair = "=0.6.0"
seahash = "=4.1.0"
siphasher = "=1.0.4"
t1ha = "=0.1.2"
wyhash = "=0.6.0"
xxhash-rust = { version = "=0.8.19", features = ["xxh64"] }
zwohash = "=0.1.2"
