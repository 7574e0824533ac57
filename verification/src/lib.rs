//! A benchmark harness for comparing the throughput of non-cryptographic
//! hash functions over a reproducible workload of variable-length byte
//! strings: a deterministic generator, a corpus sampler, a uniform hash
//! adapter, and a measurement fold that consumes every hash value.

pub mod adapter;
pub mod corpus;
pub mod generator;
pub mod runner;
