//! Running a runtime call again on the storage that a proof covers.

use vstd::prelude::*;
use crate::blockchain::Storage;
use crate::error::{ClientError, ClientResult, ExecutionFailure};
use crate::fetcher::RemoteCallRequest;
use crate::primitives::{BlockId, Bytes, Items, Text, H256};
use crate::traits::Header;

verus! {

/// What a runtime call returned.
#[derive(Clone, Debug, PartialEq, Eq)]
pub struct CallResult {
    /// The bytes that the call returned.
    pub return_data: Vec<u8>,
}

impl View for CallResult {
    type V = Seq<u8>;

    open spec fn view(&self) -> Seq<u8> {
        self.return_data@
    }
}

/// What executing a call gives, the returned bytes taken as a sequence.
pub type Execution = Result<Bytes, ExecutionFailure>;

/// An engine that runs an entry point of the runtime on storage that it reads through a
/// proof: every value that the call reads is the one that the proof resolves under the
/// state root.
///
/// What a call gives is a function of the engine, the state root, the proof, the entry
/// point and the call data.
pub trait CodeExecutor {
    /// What the call gives on the storage that `proof` covers under `state_root`.
    spec fn spec_call(
        &self,
        state_root: H256,
        proof: Items,
        method: Text,
        call_data: Bytes,
    ) -> Execution;

    /// Runs the entry point `method` with `call_data` on the storage that `proof` covers
    /// under `state_root`.
    fn call(&self, state_root: H256, proof: &Vec<Vec<u8>>, method: &str, call_data: &[u8]) -> (done:
        Result<CallResult, ExecutionFailure>)
        ensures
            execution_view(done) == self.spec_call(
                state_root,
                proof.deep_view(),
                method@,
                call_data@,
            ),
    ;
}

/// What executing a call gives, the returned bytes taken as a sequence.
pub open spec fn execution_view(done: Result<CallResult, ExecutionFailure>) -> Execution {
    match done {
        Ok(result) => Ok(result@),
        Err(failure) => Err(failure),
    }
}

/// What a check gives, the returned bytes taken as a sequence.
pub open spec fn call_result_view(checked: ClientResult<CallResult>) -> Result<
    Seq<u8>,
    ClientError,
> {
    match checked {
        Ok(result) => Ok(result@),
        Err(error) => Err(error),
    }
}

/// The verified answer to a call, given what executing it again gave: the result of the
/// execution, or the reason why it could not be completed.
pub open spec fn execution_verdict(done: Execution) -> Result<Seq<u8>, ClientError> {
    match done {
        Ok(data) => Ok(data),
        Err(failure) => Err(ClientError::ExecutionProofFailure(failure)),
    }
}

/// The verified answer to a remote call: `UnknownBlock` where the chain state holds no
/// header for the block of the request, else what executing the call gives on the storage
/// that the proof covers under the state root of that header.
pub open spec fn execution_proof_outcome<S: Storage, E: CodeExecutor>(
    blockchain: S,
    executor: E,
    block: H256,
    method: Seq<char>,
    call_data: Seq<u8>,
    proof: Seq<Seq<u8>>,
) -> Result<Seq<u8>, ClientError> {
    match blockchain.spec_header(BlockId::Hash(block)) {
        None => Err(ClientError::UnknownBlock(BlockId::Hash(block))),
        Some(header) => execution_verdict(
            executor.spec_call(header.fields().state_root, proof, method, call_data),
        ),
    }
}

/// Turns what executing a call again gave into the verified answer.
pub fn conclude_execution(done: Result<CallResult, ExecutionFailure>) -> (checked: ClientResult<
    CallResult,
>)
    ensures
        call_result_view(checked) == execution_verdict(execution_view(done)),
{
    match done {
        Ok(result) => Ok(result),
        Err(failure) => Err(ClientError::ExecutionProofFailure(failure)),
    }
}

/// Checks the proof of a remote call by executing the call again on the storage that the
/// proof covers under the state root of the trusted header that the request names.
pub fn check_execution_proof<S: Storage, E: CodeExecutor>(
    blockchain: &S,
    executor: &E,
    request: &RemoteCallRequest,
    remote_proof: Vec<Vec<u8>>,
) -> (checked: ClientResult<CallResult>)
    ensures
        call_result_view(checked) == execution_proof_outcome(
            *blockchain,
            *executor,
            request.block,
            request.method@,
            request.call_data@,
            remote_proof.deep_view(),
        ),
{
    let id = BlockId::Hash(request.block);
    match blockchain.header(id) {
        None => Err(ClientError::UnknownBlock(id)),
        Some(local_header) => {
            let local_state_root = *local_header.state_root();
            conclude_execution(
                executor.call(
                    local_state_root,
                    &remote_proof,
                    request.method.as_str(),
                    request.call_data.as_slice(),
                ),
            )
        },
    }
}

} // verus!
