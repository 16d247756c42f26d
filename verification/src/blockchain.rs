//! The locally trusted chain state that checks are made against.

use vstd::prelude::*;
use crate::primitives::{BlockId, BlockNumber, Bytes, HeaderHash, H256};
use crate::traits::Header;

verus! {

/// Trusted chain state of a light client: the headers it holds, and the canonical hash
/// tries that summarise the hashes of older headers, each over a fixed range of block
/// numbers.
///
/// Every method is a function of the state and the arguments: the model functions say
/// what state a value of the type stands for, and each method returns what its model
/// function gives.
pub trait Storage {
    /// Headers of the chain.
    type Header: Header<Hash = H256>;

    /// Root of the canonical hash trie that covers `block`, with the key under which that
    /// trie holds the block's leaf; `None` where no trie covers the block yet.
    spec fn spec_cht(&self, block: BlockNumber) -> Option<(H256, Bytes)>;

    /// The header hash that a leaf of a canonical hash trie encodes; `None` for bytes
    /// that are no such leaf.
    spec fn spec_cht_decode_header_hash(&self, leaf: Bytes) -> Option<HeaderHash>;

    /// The trusted header of the block, where the state holds one.
    spec fn spec_header(&self, id: BlockId) -> Option<Self::Header>;

    /// Looks up the canonical hash trie that covers `block`.
    fn cht(&self, block: BlockNumber) -> (found: Option<(H256, Vec<u8>)>)
        ensures
            cht_view(found) == self.spec_cht(block),
    ;

    /// Decodes a leaf of a canonical hash trie into the header hash it commits to.
    fn cht_decode_header_hash(&self, leaf: &[u8]) -> (hash: Option<HeaderHash>)
        ensures
            hash == self.spec_cht_decode_header_hash(leaf@),
    ;

    /// Looks up the trusted header of a block.
    fn header(&self, id: BlockId) -> (found: Option<Self::Header>)
        ensures
            found == self.spec_header(id),
    ;
}

/// A trie root and lookup key, the key taken as the bytes it holds.
pub open spec fn cht_view(found: Option<(H256, Vec<u8>)>) -> Option<(H256, Bytes)> {
    match found {
        Some((root, key)) => Some((root, key@)),
        None => None,
    }
}

} // verus!
