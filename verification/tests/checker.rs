use std::sync::Arc;

use hashdb::HashDB;
use keccak_hasher::KeccakHasher;
use light_fetch::blockchain::Storage;
use light_fetch::call_executor::{conclude_execution, CallResult, CodeExecutor, Execution};
use light_fetch::error::{ClientError, ExecutionFailure};
use light_fetch::fetcher::{
    conclude_header_check, conclude_read, FetchChecker, LightDataChecker, RemoteCallRequest,
    RemoteHeaderRequest, RemoteReadRequest,
};
use light_fetch::primitives::{BlockId, Bytes, Items, Pairs, Text, H256};
use light_fetch::traits::{Encode, Hashing, Header, HeaderFields};
use light_fetch::trie_proof::{ProofVerifier, Resolution, VerificationFailure};
use memorydb::MemoryDB;
use patricia_trie::{Recorder, Trie, TrieMut};
use patricia_trie_ethereum::{TrieDB, TrieDBMut};

// ---- a chain to check against -------------------------------------------------------

#[derive(Clone, Debug, PartialEq, Eq)]
struct Blake2;

fn blake2_256(data: &[u8]) -> H256 {
    let mut out = [0u8; 32];
    out.copy_from_slice(blake2_rfc::blake2b::blake2b(32, &[], data).as_bytes());
    H256(out)
}

impl Hashing for Blake2 {
    type Output = H256;

    fn spec_hash(_s: Bytes) -> H256 {
        unreachable!()
    }

    fn spec_ordered_trie_root(_items: Items) -> H256 {
        unreachable!()
    }

    fn spec_trie_root(_pairs: Pairs) -> H256 {
        unreachable!()
    }

    fn hash(s: &[u8]) -> H256 {
        blake2_256(s)
    }

    fn enumerated_trie_root(items: &[&[u8]]) -> H256 {
        H256(triehash::ordered_trie_root::<KeccakHasher, _, _>(items.iter()).0)
    }

    fn ordered_trie_root(input: Vec<Vec<u8>>) -> H256 {
        H256(triehash::ordered_trie_root::<KeccakHasher, _, _>(input).0)
    }

    fn trie_root(input: Vec<(Vec<u8>, Vec<u8>)>) -> H256 {
        H256(triehash::trie_root::<KeccakHasher, _, _, _>(input).0)
    }

    fn storage_root() -> H256 {
        H256([0u8; 32])
    }
}

#[derive(Clone, Debug, PartialEq, Eq)]
struct TestHeader {
    parent_hash: H256,
    number: u64,
    state_root: H256,
    extrinsics_root: H256,
    digest: Vec<Vec<u8>>,
}

impl Encode for TestHeader {
    fn encoding(&self) -> Bytes {
        unreachable!()
    }

    fn encode(&self) -> Vec<u8> {
        let mut v = Vec::new();
        v.extend_from_slice(&self.parent_hash.0);
        v.extend_from_slice(&self.number.to_le_bytes());
        v.extend_from_slice(&self.state_root.0);
        v.extend_from_slice(&self.extrinsics_root.0);
        v.extend_from_slice(&(self.digest.len() as u32).to_le_bytes());
        for log in &self.digest {
            v.extend_from_slice(&(log.len() as u32).to_le_bytes());
            v.extend_from_slice(log);
        }
        v
    }
}

impl Header for TestHeader {
    type Number = u64;
    type Hash = H256;
    type Hashing = Blake2;
    type Digest = Vec<Vec<u8>>;

    fn fields(&self) -> HeaderFields<u64, H256, Vec<Vec<u8>>> {
        unreachable!()
    }

    fn new(
        number: u64,
        extrinsics_root: H256,
        state_root: H256,
        parent_hash: H256,
        digest: Vec<Vec<u8>>,
    ) -> Self {
        TestHeader { parent_hash, number, state_root, extrinsics_root, digest }
    }

    fn number(&self) -> &u64 {
        &self.number
    }

    fn set_number(&mut self, number: u64) {
        self.number = number;
    }

    fn extrinsics_root(&self) -> &H256 {
        &self.extrinsics_root
    }

    fn set_extrinsics_root(&mut self, root: H256) {
        self.extrinsics_root = root;
    }

    fn state_root(&self) -> &H256 {
        &self.state_root
    }

    fn set_state_root(&mut self, root: H256) {
        self.state_root = root;
    }

    fn parent_hash(&self) -> &H256 {
        &self.parent_hash
    }

    fn set_parent_hash(&mut self, hash: H256) {
        self.parent_hash = hash;
    }

    fn digest(&self) -> &Vec<Vec<u8>> {
        &self.digest
    }

    fn set_digest(&mut self, digest: Vec<Vec<u8>>) {
        self.digest = digest;
    }
}

/// Trusted state: some headers by hash, and one canonical hash trie over `cht_range`.
struct TestStorage {
    headers: Vec<TestHeader>,
    cht_range: (u64, u64),
    cht_root: H256,
}

fn cht_key(block: u64) -> Vec<u8> {
    block.to_le_bytes().to_vec()
}

impl Storage for TestStorage {
    type Header = TestHeader;

    fn spec_cht(&self, _block: u64) -> Option<(H256, Bytes)> {
        unreachable!()
    }

    fn spec_cht_decode_header_hash(&self, _leaf: Bytes) -> Option<H256> {
        unreachable!()
    }

    fn spec_header(&self, _id: BlockId) -> Option<TestHeader> {
        unreachable!()
    }

    fn cht(&self, block: u64) -> Option<(H256, Vec<u8>)> {
        if self.cht_range.0 <= block && block <= self.cht_range.1 {
            Some((self.cht_root, cht_key(block)))
        } else {
            None
        }
    }

    fn cht_decode_header_hash(&self, leaf: &[u8]) -> Option<H256> {
        if leaf.len() == 32 {
            let mut bytes = [0u8; 32];
            bytes.copy_from_slice(leaf);
            Some(H256(bytes))
        } else {
            None
        }
    }

    fn header(&self, id: BlockId) -> Option<TestHeader> {
        self.headers
            .iter()
            .find(|h| match id {
                BlockId::Hash(hash) => h.hash() == hash,
                BlockId::Number(number) => h.number == number,
            })
            .cloned()
    }
}

// ---- the trie scheme ------------------------------------------------------------------

struct KeccakTrie;

impl ProofVerifier for KeccakTrie {
    fn spec_read_proof_check(_root: H256, _proof: Items, _key: Bytes) -> Resolution {
        unreachable!()
    }

    fn read_proof_check(
        root: H256,
        proof: &Vec<Vec<u8>>,
        key: &[u8],
    ) -> Result<Option<Vec<u8>>, VerificationFailure> {
        let mut db = MemoryDB::<KeccakHasher>::new();
        for node in proof {
            db.insert(node);
        }
        let root = ethereum_types::H256(root.0);
        if !db.contains(&root) {
            return Err(VerificationFailure);
        }
        let trie = TrieDB::new(&db, &root).map_err(|_| VerificationFailure)?;
        match trie.get(key) {
            Ok(value) => Ok(value.map(|v| v.to_vec())),
            Err(_) => Err(VerificationFailure),
        }
    }
}

/// Builds the trie of the given pairs; returns its nodes and its root.
fn build_trie(pairs: &[(Vec<u8>, Vec<u8>)]) -> (MemoryDB<KeccakHasher>, H256) {
    let mut db = MemoryDB::<KeccakHasher>::new();
    let mut root = ethereum_types::H256::default();
    {
        let mut trie = TrieDBMut::new(&mut db, &mut root);
        for (key, value) in pairs {
            trie.insert(key, value).unwrap();
        }
    }
    (db, H256(root.0))
}

/// The nodes on the path of `key` in the trie: a proof of its value, or of its absence.
fn prove(db: &MemoryDB<KeccakHasher>, root: H256, key: &[u8]) -> Vec<Vec<u8>> {
    let root = ethereum_types::H256(root.0);
    let trie = TrieDB::new(db, &root).unwrap();
    let mut recorder = Recorder::new();
    trie.get_with(key, &mut recorder).unwrap();
    recorder.drain().into_iter().map(|record| record.data.to_vec()).collect()
}

// ---- the engine ----------------------------------------------------------------------

/// Knows two entry points: `get`, which returns the storage value under the key given
/// as call data, and `len`, which returns the number of bytes of the call data.
struct TestExecutor;

impl CodeExecutor for TestExecutor {
    fn spec_call(&self, _root: H256, _proof: Items, _method: Text, _data: Bytes) -> Execution {
        unreachable!()
    }

    fn call(
        &self,
        state_root: H256,
        proof: &Vec<Vec<u8>>,
        method: &str,
        call_data: &[u8],
    ) -> Result<CallResult, ExecutionFailure> {
        match method {
            "get" => {
                if call_data.is_empty() {
                    return Err(ExecutionFailure::MalformedArguments);
                }
                match KeccakTrie::read_proof_check(state_root, proof, call_data) {
                    Ok(Some(value)) => Ok(CallResult { return_data: value }),
                    Ok(None) => Ok(CallResult { return_data: Vec::new() }),
                    Err(_) => Err(ExecutionFailure::IncompleteStorage),
                }
            }
            "len" => Ok(CallResult { return_data: vec![call_data.len() as u8] }),
            _ => Err(ExecutionFailure::UnknownMethod),
        }
    }
}

// ---- fixtures ------------------------------------------------------------------------

fn header_at(number: u64, state_root: H256) -> TestHeader {
    TestHeader {
        parent_hash: H256([number as u8; 32]),
        number,
        state_root,
        extrinsics_root: H256([7u8; 32]),
        digest: vec![vec![number as u8, 1, 2]],
    }
}

fn state_pairs() -> Vec<(Vec<u8>, Vec<u8>)> {
    let mut pairs = Vec::new();
    for i in 0u8..40 {
        pairs.push((vec![b'k', i, i.wrapping_mul(3)], vec![i; 40]));
    }
    pairs.push((b"balance:alice".to_vec(), b"1000".to_vec()));
    pairs.push((b"balance:bob".to_vec(), b"17".to_vec()));
    pairs
}

struct Chain {
    checker: LightDataChecker<TestStorage, TestExecutor, KeccakTrie>,
    cht_db: MemoryDB<KeccakHasher>,
    cht_root: H256,
    state_db: MemoryDB<KeccakHasher>,
    state_root: H256,
    old_headers: Vec<TestHeader>,
    trusted: TestHeader,
}

/// Blocks 0 to 255 are summarised in one canonical hash trie; the header of block 300
/// is held and trusted.
fn chain() -> Chain {
    let (state_db, state_root) = build_trie(&state_pairs());
    let old_headers: Vec<TestHeader> = (0u64..256).map(|n| header_at(n, H256([n as u8; 32]))).collect();
    let leaves: Vec<(Vec<u8>, Vec<u8>)> =
        old_headers.iter().map(|h| (cht_key(h.number), h.hash().0.to_vec())).collect();
    let (cht_db, cht_root) = build_trie(&leaves);
    let trusted = header_at(300, state_root);
    let storage = TestStorage { headers: vec![trusted.clone()], cht_range: (0, 255), cht_root };
    Chain {
        checker: LightDataChecker::new(Arc::new(storage), TestExecutor),
        cht_db,
        cht_root,
        state_db,
        state_root,
        old_headers,
        trusted,
    }
}

fn header_request(block: u64) -> RemoteHeaderRequest {
    RemoteHeaderRequest { block, retry_count: None }
}

fn read_request(block: H256, key: &[u8]) -> RemoteReadRequest {
    RemoteReadRequest { block, key: key.to_vec(), retry_count: Some(3) }
}

fn call_request(block: H256, method: &str, data: &[u8]) -> RemoteCallRequest {
    RemoteCallRequest { block, method: method.to_string(), call_data: data.to_vec(), retry_count: None }
}

// ---- header proofs -------------------------------------------------------------------

#[test]
fn header_with_honest_proof_is_returned_unchanged() {
    let chain = chain();
    let header = chain.old_headers[42].clone();
    let proof = prove(&chain.cht_db, chain.cht_root, &cht_key(42));
    assert!(proof.len() >= 2);
    let checked = chain.checker.check_header_proof(&header_request(42), header.clone(), proof);
    assert_eq!(checked, Ok(header));
}

#[test]
fn every_covered_block_is_provable() {
    let chain = chain();
    for number in [0u64, 1, 15, 16, 42, 128, 254, 255] {
        let header = chain.old_headers[number as usize].clone();
        let proof = prove(&chain.cht_db, chain.cht_root, &cht_key(number));
        let checked =
            chain.checker.check_header_proof(&header_request(number), header.clone(), proof);
        assert_eq!(checked, Ok(header));
    }
}

#[test]
fn other_header_with_the_same_proof_is_rejected() {
    let chain = chain();
    let proof = prove(&chain.cht_db, chain.cht_root, &cht_key(42));
    let mut forged = chain.old_headers[42].clone();
    forged.set_state_root(H256([0xEE; 32]));
    assert_ne!(forged.hash(), chain.old_headers[42].hash());
    let checked = chain.checker.check_header_proof(&header_request(42), forged, proof);
    assert_eq!(checked, Err(ClientError::InvalidHeaderProof));
}

#[test]
fn header_of_another_block_is_rejected() {
    let chain = chain();
    let proof = prove(&chain.cht_db, chain.cht_root, &cht_key(42));
    let other = chain.old_headers[43].clone();
    let checked = chain.checker.check_header_proof(&header_request(42), other, proof);
    assert_eq!(checked, Err(ClientError::InvalidHeaderProof));
}

#[test]
fn proof_for_another_block_is_rejected() {
    let chain = chain();
    let proof = prove(&chain.cht_db, chain.cht_root, &cht_key(200));
    let header = chain.old_headers[42].clone();
    let checked = chain.checker.check_header_proof(&header_request(42), header, proof);
    assert_eq!(checked, Err(ClientError::InvalidHeaderProof));
}

#[test]
fn any_changed_byte_of_a_header_proof_is_rejected() {
    let chain = chain();
    let header = chain.old_headers[42].clone();
    let proof = prove(&chain.cht_db, chain.cht_root, &cht_key(42));
    for node in 0..proof.len() {
        for byte in 0..proof[node].len() {
            let mut mutated = proof.clone();
            mutated[node][byte] ^= 0x01;
            let checked =
                chain.checker.check_header_proof(&header_request(42), header.clone(), mutated);
            assert_eq!(checked, Err(ClientError::InvalidHeaderProof));
        }
    }
}

#[test]
fn any_changed_byte_of_a_header_is_rejected() {
    let chain = chain();
    let proof = prove(&chain.cht_db, chain.cht_root, &cht_key(42));
    let honest = chain.old_headers[42].clone();
    for byte in 0..32 {
        let mut forged = honest.clone();
        forged.parent_hash.0[byte] ^= 0x80;
        let checked =
            chain.checker.check_header_proof(&header_request(42), forged, proof.clone());
        assert_eq!(checked, Err(ClientError::InvalidHeaderProof));
    }
    let mut renumbered = honest.clone();
    renumbered.set_number(43);
    let checked = chain.checker.check_header_proof(&header_request(42), renumbered, proof);
    assert_eq!(checked, Err(ClientError::InvalidHeaderProof));
}

#[test]
fn truncated_and_empty_header_proofs_are_rejected() {
    let chain = chain();
    let header = chain.old_headers[42].clone();
    let mut proof = prove(&chain.cht_db, chain.cht_root, &cht_key(42));
    proof.pop();
    let checked = chain.checker.check_header_proof(&header_request(42), header.clone(), proof);
    assert_eq!(checked, Err(ClientError::InvalidHeaderProof));
    let checked = chain.checker.check_header_proof(&header_request(42), header, Vec::new());
    assert_eq!(checked, Err(ClientError::InvalidHeaderProof));
}

#[test]
fn block_without_covering_trie_is_unknown() {
    let chain = chain();
    let proof = prove(&chain.cht_db, chain.cht_root, &cht_key(42));
    let header = chain.old_headers[42].clone();
    for number in [256u64, 300, u64::MAX] {
        let checked =
            chain.checker.check_header_proof(&header_request(number), header.clone(), proof.clone());
        assert_eq!(checked, Err(ClientError::UnknownBlock(BlockId::Number(number))));
    }
}

#[test]
fn header_check_gives_the_same_answer_twice() {
    let chain = chain();
    let header = chain.old_headers[7].clone();
    let proof = prove(&chain.cht_db, chain.cht_root, &cht_key(7));
    let first = chain.checker.check_header_proof(&header_request(7), header.clone(), proof.clone());
    let second = chain.checker.check_header_proof(&header_request(7), header.clone(), proof);
    assert_eq!(first, second);
    let bad = chain.old_headers[8].clone();
    let first = chain.checker.check_header_proof(&header_request(7), bad.clone(), Vec::new());
    let second = chain.checker.check_header_proof(&header_request(7), bad, Vec::new());
    assert_eq!(first, second);
}

#[test]
fn leaf_that_is_no_hash_is_rejected() {
    // A trie whose leaf for block 3 holds 31 bytes: the proof resolves, the leaf does
    // not decode.
    let header = header_at(3, H256([3u8; 32]));
    let (db, root) = build_trie(&[(cht_key(3), header.hash().0[..31].to_vec())]);
    let storage = TestStorage { headers: Vec::new(), cht_range: (0, 9), cht_root: root };
    let checker: LightDataChecker<TestStorage, TestExecutor, KeccakTrie> =
        LightDataChecker::new(Arc::new(storage), TestExecutor);
    let proof = prove(&db, root, &cht_key(3));
    let checked = checker.check_header_proof(&header_request(3), header, proof);
    assert_eq!(checked, Err(ClientError::InvalidHeaderProof));
}

#[test]
fn trie_that_lacks_the_block_is_rejected() {
    // The trie covers the range but holds no leaf for block 5: a proof of absence.
    let header = header_at(5, H256([5u8; 32]));
    let other = header_at(4, H256([4u8; 32]));
    let (db, root) = build_trie(&[(cht_key(4), other.hash().0.to_vec())]);
    let storage = TestStorage { headers: Vec::new(), cht_range: (0, 9), cht_root: root };
    let checker: LightDataChecker<TestStorage, TestExecutor, KeccakTrie> =
        LightDataChecker::new(Arc::new(storage), TestExecutor);
    let proof = prove(&db, root, &cht_key(5));
    assert_eq!(KeccakTrie::read_proof_check(root, &proof, &cht_key(5)), Ok(None));
    let checked = checker.check_header_proof(&header_request(5), header, proof);
    assert_eq!(checked, Err(ClientError::InvalidHeaderProof));
}

#[test]
fn header_is_accepted_only_on_the_committed_hash() {
    let header = header_at(9, H256([1u8; 32]));
    let hash = header.hash();
    assert_eq!(conclude_header_check(header.clone(), Some(hash), hash), Ok(header.clone()));
    assert_eq!(
        conclude_header_check(header.clone(), Some(H256([0u8; 32])), hash),
        Err(ClientError::InvalidHeaderProof)
    );
    assert_eq!(
        conclude_header_check(header.clone(), Some(hash), H256([0u8; 32])),
        Err(ClientError::InvalidHeaderProof)
    );
    assert_eq!(conclude_header_check(header, None, hash), Err(ClientError::InvalidHeaderProof));
    assert_eq!(conclude_header_check(5u8, Some(hash), hash), Ok(5u8));
}

#[test]
fn retry_budget_does_not_change_a_check() {
    let chain = chain();
    let header = chain.old_headers[42].clone();
    let proof = prove(&chain.cht_db, chain.cht_root, &cht_key(42));
    for retry_count in [None, Some(0), Some(1), Some(usize::MAX)] {
        let request = RemoteHeaderRequest { block: 42, retry_count };
        let checked = chain.checker.check_header_proof(&request, header.clone(), proof.clone());
        assert_eq!(checked, Ok(header.clone()));
        let request = RemoteHeaderRequest { block: 999, retry_count };
        let checked = chain.checker.check_header_proof(&request, header.clone(), proof.clone());
        assert_eq!(checked, Err(ClientError::UnknownBlock(BlockId::Number(999))));
    }
    let block = chain.trusted.hash();
    let proof = prove(&chain.state_db, chain.state_root, b"balance:bob");
    for retry_count in [None, Some(0), Some(7)] {
        let request = RemoteReadRequest { block, key: b"balance:bob".to_vec(), retry_count };
        assert_eq!(
            chain.checker.check_read_proof(&request, proof.clone()),
            Ok(Some(b"17".to_vec()))
        );
    }
}

// ---- read proofs ---------------------------------------------------------------------

#[test]
fn provable_value_is_read() {
    let chain = chain();
    let block = chain.trusted.hash();
    let proof = prove(&chain.state_db, chain.state_root, b"balance:alice");
    let checked = chain.checker.check_read_proof(&read_request(block, b"balance:alice"), proof);
    assert_eq!(checked, Ok(Some(b"1000".to_vec())));
}

#[test]
fn every_stored_value_is_readable() {
    let chain = chain();
    let block = chain.trusted.hash();
    for (key, value) in state_pairs() {
        let proof = prove(&chain.state_db, chain.state_root, &key);
        let checked = chain.checker.check_read_proof(&read_request(block, &key), proof);
        assert_eq!(checked, Ok(Some(value)));
    }
}

#[test]
fn proven_absence_is_read_as_none() {
    let chain = chain();
    let block = chain.trusted.hash();
    let proof = prove(&chain.state_db, chain.state_root, b"balance:carol");
    let checked = chain.checker.check_read_proof(&read_request(block, b"balance:carol"), proof);
    assert_eq!(checked, Ok(None));
}

#[test]
fn read_at_a_block_that_is_not_held_is_unknown() {
    let chain = chain();
    let proof = prove(&chain.state_db, chain.state_root, b"balance:alice");
    let absent = H256([0xAB; 32]);
    let checked = chain.checker.check_read_proof(&read_request(absent, b"balance:alice"), proof);
    assert_eq!(checked, Err(ClientError::UnknownBlock(BlockId::Hash(absent))));
    // A header that only the canonical hash trie covers is not held either.
    let old = chain.old_headers[42].hash();
    let checked = chain.checker.check_read_proof(&read_request(old, b"balance:alice"), Vec::new());
    assert_eq!(checked, Err(ClientError::UnknownBlock(BlockId::Hash(old))));
}

#[test]
fn read_proof_that_does_not_resolve_is_rejected() {
    let chain = chain();
    let block = chain.trusted.hash();
    let request = read_request(block, b"balance:alice");
    assert_eq!(
        chain.checker.check_read_proof(&request, Vec::new()),
        Err(ClientError::InvalidStorageProof)
    );
    // The nodes of another trie do not hash up to the state root.
    let foreign = prove(&chain.cht_db, chain.cht_root, &cht_key(1));
    assert_eq!(
        chain.checker.check_read_proof(&request, foreign),
        Err(ClientError::InvalidStorageProof)
    );
    // A proof with its last node missing cannot reach the value.
    let mut truncated = prove(&chain.state_db, chain.state_root, b"balance:alice");
    truncated.pop();
    assert_eq!(
        chain.checker.check_read_proof(&request, truncated),
        Err(ClientError::InvalidStorageProof)
    );
}

#[test]
fn any_changed_byte_of_a_read_proof_is_rejected() {
    let chain = chain();
    let block = chain.trusted.hash();
    let request = read_request(block, b"balance:bob");
    let proof = prove(&chain.state_db, chain.state_root, b"balance:bob");
    for node in 0..proof.len() {
        for byte in 0..proof[node].len() {
            let mut mutated = proof.clone();
            mutated[node][byte] ^= 0x40;
            assert_eq!(
                chain.checker.check_read_proof(&request, mutated),
                Err(ClientError::InvalidStorageProof)
            );
        }
    }
}

#[test]
fn order_of_proof_nodes_does_not_matter_to_this_trie() {
    let chain = chain();
    let block = chain.trusted.hash();
    let mut proof = prove(&chain.state_db, chain.state_root, b"balance:bob");
    proof.reverse();
    let checked = chain.checker.check_read_proof(&read_request(block, b"balance:bob"), proof);
    assert_eq!(checked, Ok(Some(b"17".to_vec())));
}

#[test]
fn read_check_gives_the_same_answer_twice() {
    let chain = chain();
    let block = chain.trusted.hash();
    let request = read_request(block, b"balance:alice");
    let proof = prove(&chain.state_db, chain.state_root, b"balance:alice");
    let first = chain.checker.check_read_proof(&request, proof.clone());
    let second = chain.checker.check_read_proof(&request, proof);
    assert_eq!(first, second);
}

#[test]
fn resolved_value_becomes_the_answer() {
    assert_eq!(conclude_read(Ok(Some(vec![1, 2, 3]))), Ok(Some(vec![1, 2, 3])));
    assert_eq!(conclude_read(Ok(Some(Vec::new()))), Ok(Some(Vec::new())));
    assert_eq!(conclude_read(Ok(None)), Ok(None));
    assert_eq!(conclude_read(Err(VerificationFailure)), Err(ClientError::InvalidStorageProof));
}

// ---- execution proofs ----------------------------------------------------------------

#[test]
fn call_is_executed_on_the_proven_storage() {
    let chain = chain();
    let block = chain.trusted.hash();
    let proof = prove(&chain.state_db, chain.state_root, b"balance:alice");
    let checked =
        chain.checker.check_execution_proof(&call_request(block, "get", b"balance:alice"), proof);
    assert_eq!(checked, Ok(CallResult { return_data: b"1000".to_vec() }));
    let checked =
        chain.checker.check_execution_proof(&call_request(block, "len", b"abcde"), Vec::new());
    assert_eq!(checked, Ok(CallResult { return_data: vec![5] }));
}

#[test]
fn call_that_cannot_be_executed_fails_with_its_reason() {
    let chain = chain();
    let block = chain.trusted.hash();
    let proof = prove(&chain.state_db, chain.state_root, b"balance:alice");
    assert_eq!(
        chain.checker.check_execution_proof(&call_request(block, "nope", b"x"), proof.clone()),
        Err(ClientError::ExecutionProofFailure(ExecutionFailure::UnknownMethod))
    );
    assert_eq!(
        chain.checker.check_execution_proof(&call_request(block, "get", b""), proof.clone()),
        Err(ClientError::ExecutionProofFailure(ExecutionFailure::MalformedArguments))
    );
    // The proof covers alice's balance, the call reads bob's.
    let mut partial = proof;
    partial.pop();
    assert_eq!(
        chain.checker.check_execution_proof(&call_request(block, "get", b"balance:bob"), partial),
        Err(ClientError::ExecutionProofFailure(ExecutionFailure::IncompleteStorage))
    );
}

#[test]
fn call_at_a_block_that_is_not_held_is_unknown() {
    let chain = chain();
    let absent = H256([0x11; 32]);
    let proof = prove(&chain.state_db, chain.state_root, b"balance:alice");
    assert_eq!(
        chain.checker.check_execution_proof(&call_request(absent, "get", b"balance:alice"), proof),
        Err(ClientError::UnknownBlock(BlockId::Hash(absent)))
    );
}

#[test]
fn free_execution_check_agrees_with_the_checker() {
    let chain = chain();
    let block = chain.trusted.hash();
    let request = call_request(block, "get", b"balance:bob");
    let proof = prove(&chain.state_db, chain.state_root, b"balance:bob");
    let through_checker = chain.checker.check_execution_proof(&request, proof.clone());
    let direct = light_fetch::call_executor::check_execution_proof(
        &**chain.checker.blockchain(),
        &TestExecutor,
        &request,
        proof,
    );
    assert_eq!(through_checker, direct);
    assert_eq!(direct, Ok(CallResult { return_data: b"17".to_vec() }));
}

#[test]
fn outcome_of_an_execution_becomes_the_answer() {
    assert_eq!(
        conclude_execution(Ok(CallResult { return_data: vec![9] })),
        Ok(CallResult { return_data: vec![9] })
    );
    assert_eq!(
        conclude_execution(Err(ExecutionFailure::IncompleteStorage)),
        Err(ClientError::ExecutionProofFailure(ExecutionFailure::IncompleteStorage))
    );
}

#[test]
fn checker_hands_out_the_state_it_was_made_with() {
    let storage = Arc::new(TestStorage { headers: Vec::new(), cht_range: (0, 0), cht_root: H256([0; 32]) });
    let checker: LightDataChecker<TestStorage, TestExecutor, KeccakTrie> =
        LightDataChecker::new(storage.clone(), TestExecutor);
    assert!(Arc::ptr_eq(checker.blockchain(), &storage));
}
