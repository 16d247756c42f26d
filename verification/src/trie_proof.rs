//! Resolving a key under a trie root from a proof.

use vstd::prelude::*;
use crate::primitives::{Bytes, Items, H256};

verus! {

/// The proof does not resolve the key under the root: a node is missing or malformed, or
/// the nodes do not hash up to the root.
#[derive(Clone, Copy, Debug, PartialEq, Eq, Structural)]
pub struct VerificationFailure;

/// A value that a proof resolves a key to, taken as the bytes it holds.
pub type Resolution = Result<Option<Bytes>, VerificationFailure>;

/// A trie scheme that can resolve a key under a root from the nodes of a proof.
///
/// The resolution is a function of root, proof and key alone.
pub trait ProofVerifier {
    /// What the proof resolves the key to under the root: the value bound to the key,
    /// `None` where the proof shows that the trie binds no value to it, or a failure.
    spec fn spec_read_proof_check(root: H256, proof: Items, key: Bytes) -> Resolution;

    /// Resolves `key` under `root` from the nodes in `proof`.
    fn read_proof_check(root: H256, proof: &Vec<Vec<u8>>, key: &[u8]) -> (resolved: Result<
        Option<Vec<u8>>,
        VerificationFailure,
    >)
        ensures
            resolution_view(resolved) == Self::spec_read_proof_check(
                root,
                proof.deep_view(),
                key@,
            ),
    ;
}

/// A resolved value, taken as the bytes it holds.
pub open spec fn resolution_view(
    resolved: Result<Option<Vec<u8>>, VerificationFailure>,
) -> Resolution {
    match resolved {
        Ok(Some(value)) => Ok(Some(value@)),
        Ok(None) => Ok(None),
        Err(failure) => Err(failure),
    }
}

} // verus!
