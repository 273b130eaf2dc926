//! Plain-value forms of the chain primitives the pipeline reads: account
//! addresses and 32-byte words.

use vstd::prelude::*;

verus! {

/// A 20-byte account address.
#[derive(Clone, Copy, Debug, PartialEq, Eq)]
pub struct Address {
    pub bytes: [u8; 20],
}

/// A 32-byte word: a hash, a randomness seed, or a storage key.
#[derive(Clone, Copy, Debug, PartialEq, Eq)]
pub struct B256 {
    pub bytes: [u8; 32],
}

impl Address {
    /// The address whose bytes are all zero.
    pub fn zero() -> (r: Address)
        ensures
            r.bytes@ == Seq::new(20, |i: int| 0u8),
    {
        let r = Address { bytes: [0u8; 20] };
        proof {
            assert(r.bytes@ =~= Seq::new(20, |i: int| 0u8));
        }
        r
    }
}

/// The chain-head block header fields this pipeline reads, as plain values.
#[derive(Clone, Copy, Debug, PartialEq, Eq)]
pub struct Header {
    /// Height of the block.
    pub number: u64,
    /// Unix timestamp of the block.
    pub timestamp: u64,
    /// Address credited with the block's fees.
    pub beneficiary: Address,
    /// Gas limit of the block.
    pub gas_limit: u64,
    /// Gas spent by the block's transactions.
    pub gas_used: u64,
    /// Base fee of the block; absent before the fee-market fork.
    pub base_fee_per_gas: Option<u64>,
    /// Running excess of blob gas; absent before the blob fork.
    pub excess_blob_gas: Option<u64>,
    /// Blob gas spent by the block; absent before the blob fork.
    pub blob_gas_used: Option<u64>,
    /// Post-merge randomness seed recorded in the header.
    pub mix_hash: B256,
}

impl B256 {
    /// The word whose bytes are all zero.
    pub fn zero() -> (r: B256)
        ensures
            r.bytes@ == Seq::new(32, |i: int| 0u8),
    {
        let r = B256 { bytes: [0u8; 32] };
        proof {
            assert(r.bytes@ =~= Seq::new(32, |i: int| 0u8));
        }
        r
    }
}

} // verus!
