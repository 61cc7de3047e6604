//! Decoding of captured link-layer frames into normalized packet records.
//!
//! The decoder parses one raw Ethernet frame into its layered view
//! (network-layer addresses, transport-layer ports, each possibly absent),
//! and the normalizer assembles the fixed-shape record from that view and
//! the capture length. Both are pure functions of their inputs, with
//! contracts that pin the result down byte for byte.

pub mod decode;
pub mod laws;
pub mod normalize;
pub mod record;
