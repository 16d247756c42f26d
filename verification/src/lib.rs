//! Verification of data that a light client fetched from remote full nodes.
//!
//! A light client holds block headers, not the state of the chain. What it needs beyond
//! them (an old header, a storage value, the result of a runtime call) it asks of full
//! nodes, which it does not trust: each answer comes with a proof, and is accepted only
//! where the proof ties it to chain state that the client already trusts.
//!
//! - [`fetcher`] holds the requests, the checker and what is proved of its three checks.
//! - [`blockchain`] is the trusted chain state that the checks are made against.
//! - [`trie_proof`] is the trie scheme that resolves a key under a root from a proof.
//! - [`call_executor`] is the engine that runs a call again on proof-backed storage.
//! - [`traits`] and [`numeric`] hold the capabilities of a runtime and its chain.
//! - [`primitives`] and [`error`] hold hashes, block identifiers and the errors.
//!
//! A check is a function of the trusted state, the request, the claimed answer and the
//! proof: it keeps no state of its own, and never turns a failure into an answer.

pub mod primitives;
pub mod error;
pub mod traits;
pub mod numeric;
pub mod blockchain;
pub mod trie_proof;
pub mod call_executor;
pub mod fetcher;
