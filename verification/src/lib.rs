//! A verifier-node core for a cross-chain messaging protocol: decoding a
//! fixed-layout packet header, hashing header and message bytes for
//! attestation, and tracking the node's lifecycle around a single stored
//! packet.

pub mod codec;
pub mod hashing;
pub mod lifecycle;
