//! Byte layout of every key kept in a region-partitioned store's shared,
//! sorted key-value space, with encoders, decoders and proofs of the order
//! and round-trip properties the layout is built for.

pub mod be;
pub mod consts;
pub mod data;
pub mod error;
pub mod order;
pub mod region;
pub mod region_meta;
pub mod region_raft;
