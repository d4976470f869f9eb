//! The multihash algorithm a stored block is addressed by.

use vstd::prelude::*;

verus! {

/// The hash algorithm named in the block-put request. The choice is fixed at
/// compile time; the relay always selects Keccak-256, and a SHA2-256 variant
/// is reserved as a typed extension point.
#[derive(Clone, Copy, PartialEq, Eq, Structural, Debug)]
pub enum PutBlockHash {
    _Sha256,
    Keccak256,
}

/// The multihash name of a hash algorithm, as the IPFS node's API spells it.
pub open spec fn spec_ipfs_name(h: PutBlockHash) -> Seq<char> {
    match h {
        PutBlockHash::_Sha256 => "sha2-256"@,
        PutBlockHash::Keccak256 => "keccak-256"@,
    }
}

impl PutBlockHash {
    /// The multihash name sent as the `mhtype` query parameter.
    pub fn ipfs_name(&self) -> (r: &'static str)
        ensures
            r@ == spec_ipfs_name(*self),
    {
        match self {
            PutBlockHash::_Sha256 => "sha2-256",
            PutBlockHash::Keccak256 => "keccak-256",
        }
    }
}

} // verus!
