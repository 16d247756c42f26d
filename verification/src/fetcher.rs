//! Requests for remote data, and the checks that decide whether an answer is consistent
//! with the chain state that the light client already trusts.

use vstd::prelude::*;
use vstd::std_specs::cmp::PartialEqSpec;
use std::marker::PhantomData;
use std::sync::Arc;
use crate::blockchain::Storage;
use crate::call_executor::{
    call_result_view,
    check_execution_proof,
    execution_proof_outcome,
    CallResult,
    CodeExecutor,
};
use crate::error::{ClientError, ClientResult};
use crate::primitives::{BlockId, BlockNumber, HeaderHash, H256};
use crate::traits::{header_hash, Header};
use crate::trie_proof::{resolution_view, ProofVerifier, Resolution, VerificationFailure};

verus! {

/// Asks for the canonical header with a given number.
#[derive(Clone, Debug, Eq, Hash)]
pub struct RemoteHeaderRequest {
    /// Number of the header to query.
    pub block: BlockNumber,
    /// How often to retry before failing; `None` selects the default.
    pub retry_count: Option<usize>,
}

/// Asks for the value of a storage key in the state of a block.
#[derive(Clone, Debug, Eq, Hash)]
pub struct RemoteReadRequest {
    /// Read at the state of this block.
    pub block: HeaderHash,
    /// Storage key to read.
    pub key: Vec<u8>,
    /// How often to retry before failing; `None` selects the default.
    pub retry_count: Option<usize>,
}

/// Asks for the result of a runtime call in the state of a block.
#[derive(Clone, Debug, Eq, Hash)]
pub struct RemoteCallRequest {
    /// Call at the state of this block.
    pub block: HeaderHash,
    /// Entry point to call.
    pub method: String,
    /// Call data.
    pub call_data: Vec<u8>,
    /// How often to retry before failing; `None` selects the default.
    pub retry_count: Option<usize>,
}

/// What the allocator reports as the size of the heap block that holds the bytes of the
/// vector: the result of `heapsize::HeapSizeOf::heap_size_of_children` on a `Vec<u8>`.
/// The number depends on the allocator, so nothing is claimed of it.
#[verifier::external_body]
fn heap_size_of_bytes(bytes: &Vec<u8>) -> (size: usize) {
    heapsize::HeapSizeOf::heap_size_of_children(bytes)
}

/// What the allocator reports as the size of the heap block that holds the text of the
/// string: the result of `heapsize::HeapSizeOf::heap_size_of_children` on a `String`.
/// The number depends on the allocator, so nothing is claimed of it.
#[verifier::external_body]
fn heap_size_of_text(text: &String) -> (size: usize) {
    heapsize::HeapSizeOf::heap_size_of_children(text)
}

impl RemoteHeaderRequest {
    /// Bytes that the request owns on the heap: none.
    pub fn heap_size_of_children(&self) -> (size: usize)
        ensures
            size == 0,
    {
        0
    }
}

impl RemoteReadRequest {
    /// Bytes that the request owns on the heap: the block that holds the key, as the
    /// allocator measures it.
    pub fn heap_size_of_children(&self) -> (size: usize)
        ensures
            measures_bytes(self.key, size),
    {
        heap_size_of_bytes(&self.key)
    }
}

impl RemoteCallRequest {
    /// Bytes that the request owns on the heap: the blocks that hold the method name and
    /// the call data, as the allocator measures them. The sum stops at `usize::MAX`.
    pub fn heap_size_of_children(&self) -> (size: usize)
        ensures
            exists|method: usize, call_data: usize|
                #![trigger sum_of_sizes(method, call_data)]
                measures_text(self.method, method) && measures_bytes(self.call_data, call_data)
                    && size == sum_of_sizes(method, call_data),
    {
        let method = heap_size_of_text(&self.method);
        let call_data = heap_size_of_bytes(&self.call_data);
        add_sizes(method, call_data)
    }
}

/// Whether `size` is a number that the allocator can report for the heap block that
/// holds the bytes of the vector.
pub closed spec fn measures_bytes(bytes: Vec<u8>, size: usize) -> bool {
    call_ensures(heap_size_of_bytes, (&bytes,), size)
}

/// Whether `size` is a number that the allocator can report for the heap block that
/// holds the text of the string.
pub closed spec fn measures_text(text: String, size: usize) -> bool {
    call_ensures(heap_size_of_text, (&text,), size)
}

/// The sum of two sizes, which stops at `usize::MAX`.
pub open spec fn sum_of_sizes(first: usize, second: usize) -> usize {
    if first + second <= usize::MAX {
        (first + second) as usize
    } else {
        usize::MAX
    }
}

/// Adds up the sizes of two heap blocks; the sum stops at `usize::MAX`.
pub fn add_sizes(first: usize, second: usize) -> (sum: usize)
    ensures
        sum == sum_of_sizes(first, second),
{
    first.saturating_add(second)
}

impl Default for RemoteHeaderRequest {
    /// A request for block 0 with the default number of retries.
    fn default() -> (request: Self)
        ensures
            request.block == 0,
            request.retry_count is None,
    {
        RemoteHeaderRequest { block: 0, retry_count: None }
    }
}

impl Default for RemoteReadRequest {
    /// A request for the empty key at the all-zero block hash, with the default number of
    /// retries.
    fn default() -> (request: Self)
        ensures
            request.block@ == Seq::new(32, |i: int| 0u8),
            request.key@ == Seq::<u8>::empty(),
            request.retry_count is None,
    {
        RemoteReadRequest { block: H256::zero(), key: Vec::new(), retry_count: None }
    }
}

impl Default for RemoteCallRequest {
    /// A request for the method with the empty name and no call data at the all-zero
    /// block hash, with the default number of retries.
    fn default() -> (request: Self)
        ensures
            request.block@ == Seq::new(32, |i: int| 0u8),
            request.method@ == Seq::<char>::empty(),
            request.call_data@ == Seq::<u8>::empty(),
            request.retry_count is None,
    {
        RemoteCallRequest {
            block: H256::zero(),
            method: String::new(),
            call_data: Vec::new(),
            retry_count: None,
        }
    }
}

/// `==` on byte vectors holds exactly where they hold the same bytes.
proof fn same_bytes_are_equal(a: Vec<u8>, b: Vec<u8>)
    ensures
        a.eq_spec(&b) <==> a@ == b@,
{
    if a.eq_spec(&b) {
        assert(a@ =~= b@);
    }
}

impl PartialEq for RemoteHeaderRequest {
    fn eq(&self, other: &Self) -> (r: bool) {
        self.block == other.block && self.retry_count == other.retry_count
    }
}

impl vstd::std_specs::cmp::PartialEqSpecImpl for RemoteHeaderRequest {
    open spec fn obeys_eq_spec() -> bool {
        true
    }

    open spec fn eq_spec(&self, other: &Self) -> bool {
        self.block == other.block && self.retry_count == other.retry_count
    }
}

impl PartialEq for RemoteReadRequest {
    fn eq(&self, other: &Self) -> (r: bool) {
        proof {
            same_bytes_are_equal(self.key, other.key);
        }
        self.block == other.block && self.key == other.key && self.retry_count
            == other.retry_count
    }
}

impl vstd::std_specs::cmp::PartialEqSpecImpl for RemoteReadRequest {
    open spec fn obeys_eq_spec() -> bool {
        true
    }

    open spec fn eq_spec(&self, other: &Self) -> bool {
        self.block@ == other.block@ && self.key@ == other.key@ && self.retry_count
            == other.retry_count
    }
}

impl PartialEq for RemoteCallRequest {
    fn eq(&self, other: &Self) -> (r: bool) {
        proof {
            same_bytes_are_equal(self.call_data, other.call_data);
        }
        self.block == other.block && self.method == other.method && self.call_data
            == other.call_data && self.retry_count == other.retry_count
    }
}

impl vstd::std_specs::cmp::PartialEqSpecImpl for RemoteCallRequest {
    open spec fn obeys_eq_spec() -> bool {
        true
    }

    open spec fn eq_spec(&self, other: &Self) -> bool {
        self.block@ == other.block@ && self.method@ == other.method@ && self.call_data@
            == other.call_data@ && self.retry_count == other.retry_count
    }
}

/// A verified storage value, taken as the bytes it holds.
pub open spec fn read_result_view(checked: ClientResult<Option<Vec<u8>>>) -> Result<
    Option<Seq<u8>>,
    ClientError,
> {
    match checked {
        Ok(Some(value)) => Ok(Some(value@)),
        Ok(None) => Ok(None),
        Err(error) => Err(error),
    }
}

/// The verified answer to a storage read, given what the proof resolved the key to: the
/// value, the proven absence of one, or `InvalidStorageProof` where the proof failed.
pub open spec fn read_verdict(resolved: Resolution) -> Result<Option<Seq<u8>>, ClientError> {
    match resolved {
        Ok(value) => Ok(value),
        Err(_) => Err(ClientError::InvalidStorageProof),
    }
}

/// The verified answer to a storage read: `UnknownBlock` where the chain state holds no
/// header for the block of the request, else what the proof resolves the key to under the
/// state root of that header.
pub open spec fn read_proof_outcome<S: Storage, V: ProofVerifier>(
    blockchain: S,
    block: H256,
    key: Seq<u8>,
    proof: Seq<Seq<u8>>,
) -> Result<Option<Seq<u8>>, ClientError> {
    match blockchain.spec_header(BlockId::Hash(block)) {
        None => Err(ClientError::UnknownBlock(BlockId::Hash(block))),
        Some(header) => read_verdict(
            V::spec_read_proof_check(header.fields().state_root, proof, key),
        ),
    }
}

/// Turns what a proof resolved a storage key to into the verified answer.
pub fn conclude_read(resolved: Result<Option<Vec<u8>>, VerificationFailure>) -> (checked:
    ClientResult<Option<Vec<u8>>>)
    ensures
        read_result_view(checked) == read_verdict(resolution_view(resolved)),
{
    match resolved {
        Ok(value) => Ok(value),
        Err(_) => Err(ClientError::InvalidStorageProof),
    }
}

/// The header hash that a canonical hash trie commits to, given what the proof resolved
/// the lookup key to: the hash that the resolved leaf encodes. There is none where the
/// proof failed, where it shows that the trie holds no leaf under the key, and where the
/// resolved bytes are no leaf.
pub open spec fn committed_hash<S: Storage>(blockchain: S, resolved: Resolution) -> Option<
    HeaderHash,
> {
    match resolved {
        Ok(Some(leaf)) => blockchain.spec_cht_decode_header_hash(leaf),
        _ => None,
    }
}

/// The verified answer to a header request, given the hash that the canonical hash trie
/// commits to and the hash of the claimed header: the claimed header where the two are
/// the same hash, else `InvalidHeaderProof`.
pub open spec fn header_verdict<H>(
    header: H,
    committed: Option<HeaderHash>,
    claimed: HeaderHash,
) -> Result<H, ClientError> {
    if committed == Some(claimed) {
        Ok(header)
    } else {
        Err(ClientError::InvalidHeaderProof)
    }
}

/// The verified answer to a header request: `UnknownBlock` where no canonical hash trie
/// covers the block number, else the claimed header where the proof resolves the lookup
/// key of the block, under the root of the covering trie, to a leaf that encodes the hash
/// of the claimed header, and `InvalidHeaderProof` in every other case.
pub open spec fn header_proof_outcome<S: Storage, V: ProofVerifier>(
    blockchain: S,
    block: BlockNumber,
    header: S::Header,
    proof: Seq<Seq<u8>>,
) -> Result<S::Header, ClientError> {
    match blockchain.spec_cht(block) {
        None => Err(ClientError::UnknownBlock(BlockId::Number(block))),
        Some((cht_root, cht_key)) => header_verdict(
            header,
            committed_hash(blockchain, V::spec_read_proof_check(cht_root, proof, cht_key)),
            header_hash(header),
        ),
    }
}

/// Accepts the claimed header where its hash, `remote_hash`, is the one that the
/// canonical hash trie commits to, `local_hash`.
pub fn conclude_header_check<H>(
    header: H,
    local_hash: Option<HeaderHash>,
    remote_hash: HeaderHash,
) -> (checked: ClientResult<H>)
    ensures
        checked == header_verdict(header, local_hash, remote_hash),
{
    match local_hash {
        Some(local_hash) => {
            proof {
                H256::view_injective(local_hash, remote_hash);
            }
            if local_hash == remote_hash {
                Ok(header)
            } else {
                Err(ClientError::InvalidHeaderProof)
            }
        },
        None => Err(ClientError::InvalidHeaderProof),
    }
}

/// Decides whether remote data is consistent with trusted chain state.
pub trait FetchChecker: Send + Sync {
    /// Headers of the chain.
    type Header;

    /// Checks the proof of a remote header: that the claimed header is the canonical
    /// header with the requested number.
    fn check_header_proof(
        &self,
        request: &RemoteHeaderRequest,
        header: Self::Header,
        remote_proof: Vec<Vec<u8>>,
    ) -> ClientResult<Self::Header>;

    /// Checks the proof of a remote storage read.
    fn check_read_proof(
        &self,
        request: &RemoteReadRequest,
        remote_proof: Vec<Vec<u8>>,
    ) -> ClientResult<Option<Vec<u8>>>;

    /// Checks the proof of a remote call.
    fn check_execution_proof(
        &self,
        request: &RemoteCallRequest,
        remote_proof: Vec<Vec<u8>>,
    ) -> ClientResult<CallResult>;
}

/// Checks remote data against the chain state that the light client trusts.
pub struct LightDataChecker<S, E, V> {
    blockchain: Arc<S>,
    executor: E,
    verifier: PhantomData<V>,
}

impl<S: Storage, E: CodeExecutor, V: ProofVerifier> LightDataChecker<S, E, V> {
    /// The chain state that the checker trusts.
    pub closed spec fn spec_blockchain(&self) -> Arc<S> {
        self.blockchain
    }

    /// The engine that the checker executes calls with.
    pub closed spec fn spec_executor(&self) -> E {
        self.executor
    }

    /// Creates a checker over the given chain state and execution engine.
    pub fn new(blockchain: Arc<S>, executor: E) -> (checker: Self)
        ensures
            checker.spec_blockchain() == blockchain,
            checker.spec_executor() == executor,
    {
        LightDataChecker { blockchain, executor, verifier: PhantomData }
    }

    /// The chain state that the checker trusts.
    pub fn blockchain(&self) -> (blockchain: &Arc<S>)
        ensures
            *blockchain == self.spec_blockchain(),
    {
        &self.blockchain
    }

}

impl<S, E, V> FetchChecker for LightDataChecker<S, E, V> where
    S: Storage + Send + Sync,
    E: CodeExecutor + Send + Sync,
    V: ProofVerifier + Send + Sync,
 {
    type Header = S::Header;

    /// Accepts the claimed header where the proof shows that the canonical hash trie
    /// covering the requested number commits to its hash.
    fn check_header_proof(
        &self,
        request: &RemoteHeaderRequest,
        header: S::Header,
        remote_proof: Vec<Vec<u8>>,
    ) -> (checked: ClientResult<S::Header>)
        ensures
            checked == header_proof_outcome::<S, V>(
                *self.spec_blockchain(),
                request.block,
                header,
                remote_proof.deep_view(),
            ),
    {
        match self.blockchain.cht(request.block) {
            None => Err(ClientError::UnknownBlock(BlockId::Number(request.block))),
            Some((cht_root, cht_key)) => {
                let local_cht_value = V::read_proof_check(
                    cht_root,
                    &remote_proof,
                    cht_key.as_slice(),
                );
                let local_hash = match local_cht_value {
                    Ok(Some(leaf)) => self.blockchain.cht_decode_header_hash(leaf.as_slice()),
                    _ => None,
                };
                let remote_hash = header.hash();
                conclude_header_check(header, local_hash, remote_hash)
            },
        }
    }

    /// Resolves the requested key from the proof, under the state root of the trusted
    /// header that the request names.
    fn check_read_proof(&self, request: &RemoteReadRequest, remote_proof: Vec<Vec<u8>>) -> (checked:
        ClientResult<Option<Vec<u8>>>)
        ensures
            read_result_view(checked) == read_proof_outcome::<S, V>(
                *self.spec_blockchain(),
                request.block,
                request.key@,
                remote_proof.deep_view(),
            ),
    {
        let id = BlockId::Hash(request.block);
        match self.blockchain.header(id) {
            None => Err(ClientError::UnknownBlock(id)),
            Some(local_header) => {
                let local_state_root = *local_header.state_root();
                conclude_read(
                    V::read_proof_check(local_state_root, &remote_proof, request.key.as_slice()),
                )
            },
        }
    }

    /// Executes the requested call again on the storage that the proof covers, under the
    /// state root of the trusted header that the request names.
    fn check_execution_proof(&self, request: &RemoteCallRequest, remote_proof: Vec<Vec<u8>>) -> (checked:
        ClientResult<CallResult>)
        ensures
            call_result_view(checked) == execution_proof_outcome(
                *self.spec_blockchain(),
                self.spec_executor(),
                request.block,
                request.method@,
                request.call_data@,
                remote_proof.deep_view(),
            ),
    {
        check_execution_proof(&*self.blockchain, &self.executor, request, remote_proof)
    }
}

/// A claimed header is accepted unchanged where the proof is an honest one: a canonical
/// hash trie covers the block number, the proof resolves the lookup key of the block
/// under the root of that trie to a leaf, and the leaf encodes the hash of the header.
pub proof fn honest_header_proof_is_accepted<S: Storage, V: ProofVerifier>(
    blockchain: S,
    block: BlockNumber,
    header: S::Header,
    proof: Seq<Seq<u8>>,
    cht_root: H256,
    cht_key: Seq<u8>,
    leaf: Seq<u8>,
)
    requires
        blockchain.spec_cht(block) == Some((cht_root, cht_key)),
        V::spec_read_proof_check(cht_root, proof, cht_key) == Ok::<
            Option<Seq<u8>>,
            VerificationFailure,
        >(Some(leaf)),
        blockchain.spec_cht_decode_header_hash(leaf) == Some(header_hash(header)),
    ensures
        header_proof_outcome::<S, V>(blockchain, block, header, proof) == Ok::<
            S::Header,
            ClientError,
        >(header),
{
}

/// Where a canonical hash trie covers the block number, any header or proof other than
/// an honest pair is rejected with `InvalidHeaderProof`: a proof that fails, one that
/// shows the absence of a leaf, a resolved value that is no leaf, and a leaf that
/// encodes another hash than that of the claimed header.
pub proof fn forged_header_proof_is_rejected<S: Storage, V: ProofVerifier>(
    blockchain: S,
    block: BlockNumber,
    header: S::Header,
    proof: Seq<Seq<u8>>,
    cht_root: H256,
    cht_key: Seq<u8>,
)
    requires
        blockchain.spec_cht(block) == Some((cht_root, cht_key)),
        committed_hash(blockchain, V::spec_read_proof_check(cht_root, proof, cht_key)) != Some(
            header_hash(header),
        ),
    ensures
        header_proof_outcome::<S, V>(blockchain, block, header, proof) == Err::<
            S::Header,
            ClientError,
        >(ClientError::InvalidHeaderProof),
{
}

/// A header check succeeds only with the claimed header itself, and only where the
/// covering canonical hash trie commits to the hash of that header.
pub proof fn accepted_header_is_committed<S: Storage, V: ProofVerifier>(
    blockchain: S,
    block: BlockNumber,
    header: S::Header,
    proof: Seq<Seq<u8>>,
)
    requires
        header_proof_outcome::<S, V>(blockchain, block, header, proof) is Ok,
    ensures
        header_proof_outcome::<S, V>(blockchain, block, header, proof) == Ok::<
            S::Header,
            ClientError,
        >(header),
        blockchain.spec_cht(block) matches Some((cht_root, cht_key)) && committed_hash(
            blockchain,
            V::spec_read_proof_check(cht_root, proof, cht_key),
        ) == Some(header_hash(header)),
{
}

/// A request for a block number that no canonical hash trie covers fails with
/// `UnknownBlock`, whatever header and proof come with it.
pub proof fn uncovered_block_is_unknown<S: Storage, V: ProofVerifier>(
    blockchain: S,
    block: BlockNumber,
    header: S::Header,
    proof: Seq<Seq<u8>>,
)
    requires
        blockchain.spec_cht(block) is None,
    ensures
        header_proof_outcome::<S, V>(blockchain, block, header, proof) == Err::<
            S::Header,
            ClientError,
        >(ClientError::UnknownBlock(BlockId::Number(block))),
{
}

/// A storage read returns what the proof resolves the key to under the state root of
/// the trusted header: the value where it resolves to one, and `None` where it shows
/// that the key is absent.
pub proof fn provable_read_is_returned<S: Storage, V: ProofVerifier>(
    blockchain: S,
    block: HeaderHash,
    key: Seq<u8>,
    proof: Seq<Seq<u8>>,
    header: S::Header,
    value: Option<Seq<u8>>,
)
    requires
        blockchain.spec_header(BlockId::Hash(block)) == Some(header),
        V::spec_read_proof_check(header.fields().state_root, proof, key) == Ok::<
            Option<Seq<u8>>,
            VerificationFailure,
        >(value),
    ensures
        read_proof_outcome::<S, V>(blockchain, block, key, proof) == Ok::<
            Option<Seq<u8>>,
            ClientError,
        >(value),
{
}

/// A storage read under a trusted header fails with `InvalidStorageProof` where the
/// proof does not resolve the key under the state root of that header.
pub proof fn failed_read_proof_is_rejected<S: Storage, V: ProofVerifier>(
    blockchain: S,
    block: HeaderHash,
    key: Seq<u8>,
    proof: Seq<Seq<u8>>,
    header: S::Header,
)
    requires
        blockchain.spec_header(BlockId::Hash(block)) == Some(header),
        V::spec_read_proof_check(header.fields().state_root, proof, key) is Err,
    ensures
        read_proof_outcome::<S, V>(blockchain, block, key, proof) == Err::<
            Option<Seq<u8>>,
            ClientError,
        >(ClientError::InvalidStorageProof),
{
}

/// A storage read at a block whose header the chain state does not hold fails with
/// `UnknownBlock`, whatever the proof.
pub proof fn read_at_unknown_block_fails<S: Storage, V: ProofVerifier>(
    blockchain: S,
    block: HeaderHash,
    key: Seq<u8>,
    proof: Seq<Seq<u8>>,
)
    requires
        blockchain.spec_header(BlockId::Hash(block)) is None,
    ensures
        read_proof_outcome::<S, V>(blockchain, block, key, proof) == Err::<
            Option<Seq<u8>>,
            ClientError,
        >(ClientError::UnknownBlock(BlockId::Hash(block))),
{
}

/// A call at a block whose header the chain state does not hold fails with
/// `UnknownBlock`, whatever the proof.
pub proof fn call_at_unknown_block_fails<S: Storage, E: CodeExecutor>(
    blockchain: S,
    executor: E,
    block: HeaderHash,
    method: Seq<char>,
    call_data: Seq<u8>,
    proof: Seq<Seq<u8>>,
)
    requires
        blockchain.spec_header(BlockId::Hash(block)) is None,
    ensures
        execution_proof_outcome(blockchain, executor, block, method, call_data, proof) == Err::<
            Seq<u8>,
            ClientError,
        >(ClientError::UnknownBlock(BlockId::Hash(block))),
{
}

/// Checking the same header request, header and proof twice against the same chain
/// state gives the same answer.
pub proof fn header_check_is_repeatable<S: Storage, V: ProofVerifier>(
    blockchain: S,
    block: BlockNumber,
    header: S::Header,
    proof: Seq<Seq<u8>>,
    first: ClientResult<S::Header>,
    second: ClientResult<S::Header>,
)
    requires
        first == header_proof_outcome::<S, V>(blockchain, block, header, proof),
        second == header_proof_outcome::<S, V>(blockchain, block, header, proof),
    ensures
        first == second,
{
}

/// Checking the same read request and proof twice against the same chain state gives
/// the same answer, byte for byte.
pub proof fn read_check_is_repeatable<S: Storage, V: ProofVerifier>(
    blockchain: S,
    block: HeaderHash,
    key: Seq<u8>,
    proof: Seq<Seq<u8>>,
    first: ClientResult<Option<Vec<u8>>>,
    second: ClientResult<Option<Vec<u8>>>,
)
    requires
        read_result_view(first) == read_proof_outcome::<S, V>(blockchain, block, key, proof),
        read_result_view(second) == read_proof_outcome::<S, V>(blockchain, block, key, proof),
    ensures
        read_result_view(first) == read_result_view(second),
{
}

/// Checking the same call request and proof twice against the same chain state, with
/// the same engine, gives the same answer, byte for byte.
pub proof fn execution_check_is_repeatable<S: Storage, E: CodeExecutor>(
    blockchain: S,
    executor: E,
    block: HeaderHash,
    method: Seq<char>,
    call_data: Seq<u8>,
    proof: Seq<Seq<u8>>,
    first: ClientResult<CallResult>,
    second: ClientResult<CallResult>,
)
    requires
        call_result_view(first) == execution_proof_outcome(
            blockchain,
            executor,
            block,
            method,
            call_data,
            proof,
        ),
        call_result_view(second) == execution_proof_outcome(
            blockchain,
            executor,
            block,
            method,
            call_data,
            proof,
        ),
    ensures
        call_result_view(first) == call_result_view(second),
{
}

} // verus!
