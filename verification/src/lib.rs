//! A small relay library: it prepares the two outbound requests a relay
//! process makes for each inbound block — storing the block on an
//! IPFS-compatible node and pinning the resulting content identifier — and
//! decides, step by step, how the relay answers its own HTTP caller.

pub mod block_store;
pub mod config;
pub mod hash;
pub mod pin_client;
pub mod relay;

pub use hash::PutBlockHash;
