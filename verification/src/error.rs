//! Why a check of remote data fails.

use vstd::prelude::*;
use vstd::std_specs::cmp::PartialEqSpecImpl;
use crate::primitives::BlockId;

verus! {

/// Why a call could not be executed again on proof-backed storage.
#[derive(Clone, Copy, Debug, PartialEq, Eq, Structural)]
pub enum ExecutionFailure {
    /// The runtime has no entry point of the requested name.
    UnknownMethod,
    /// The entry point could not read its arguments.
    MalformedArguments,
    /// The call read storage that the proof does not cover.
    IncompleteStorage,
}

/// Why a check of remote data fails.
#[derive(Clone, Copy, Debug, Eq)]
pub enum ClientError {
    /// The request names a block that the trusted chain state cannot resolve.
    UnknownBlock(BlockId),
    /// The proof does not show that the claimed header is the canonical one.
    InvalidHeaderProof,
    /// The proof does not resolve the storage key under the trusted state root.
    InvalidStorageProof,
    /// The call could not be executed again on the storage that the proof covers.
    ExecutionProofFailure(ExecutionFailure),
}

/// Outcome of a check.
pub type ClientResult<T> = Result<T, ClientError>;

impl PartialEq for ClientError {
    fn eq(&self, other: &Self) -> (r: bool) {
        match (self, other) {
            (ClientError::UnknownBlock(a), ClientError::UnknownBlock(b)) => a == b,
            (ClientError::InvalidHeaderProof, ClientError::InvalidHeaderProof) => true,
            (ClientError::InvalidStorageProof, ClientError::InvalidStorageProof) => true,
            (ClientError::ExecutionProofFailure(a), ClientError::ExecutionProofFailure(b)) => a
                == b,
            _ => false,
        }
    }
}

impl PartialEqSpecImpl for ClientError {
    open spec fn obeys_eq_spec() -> bool {
        true
    }

    open spec fn eq_spec(&self, other: &Self) -> bool {
        *self == *other
    }
}

} // verus!
