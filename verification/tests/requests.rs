use std::collections::hash_map::DefaultHasher;
use std::hash::{Hash, Hasher};

use light_fetch::error::{ClientError, ExecutionFailure};
use light_fetch::fetcher::{
    add_sizes, RemoteCallRequest, RemoteHeaderRequest, RemoteReadRequest,
};
use light_fetch::primitives::{BlockId, H256};

fn hash_of<T: Hash>(value: &T) -> u64 {
    let mut hasher = DefaultHasher::new();
    value.hash(&mut hasher);
    hasher.finish()
}

fn read_request() -> RemoteReadRequest {
    RemoteReadRequest { block: H256([4u8; 32]), key: vec![1, 2, 3], retry_count: Some(2) }
}

fn call_request() -> RemoteCallRequest {
    RemoteCallRequest {
        block: H256([4u8; 32]),
        method: "balance_of".to_string(),
        call_data: vec![9, 9],
        retry_count: None,
    }
}

#[test]
fn default_header_request_asks_for_block_zero() {
    let request = RemoteHeaderRequest::default();
    assert_eq!(request.block, 0);
    assert_eq!(request.retry_count, None);
}

#[test]
fn default_read_request_is_empty() {
    let request = RemoteReadRequest::default();
    assert_eq!(request.block, H256([0u8; 32]));
    assert!(request.key.is_empty());
    assert_eq!(request.retry_count, None);
}

#[test]
fn default_call_request_is_empty() {
    let request = RemoteCallRequest::default();
    assert_eq!(request.block, H256([0u8; 32]));
    assert_eq!(request.method, "");
    assert!(request.call_data.is_empty());
    assert_eq!(request.retry_count, None);
}

#[test]
fn header_requests_are_equal_field_by_field() {
    let request = RemoteHeaderRequest { block: 42, retry_count: Some(1) };
    assert_eq!(request, RemoteHeaderRequest { block: 42, retry_count: Some(1) });
    assert_ne!(request, RemoteHeaderRequest { block: 43, retry_count: Some(1) });
    assert_ne!(request, RemoteHeaderRequest { block: 42, retry_count: Some(2) });
    assert_ne!(request, RemoteHeaderRequest { block: 42, retry_count: None });
    assert_eq!(request.clone(), request);
}

#[test]
fn read_requests_are_equal_field_by_field() {
    let request = read_request();
    assert_eq!(request, read_request());
    assert_eq!(request.clone(), request);
    let mut other = read_request();
    other.block.0[31] = 5;
    assert_ne!(request, other);
    let mut other = read_request();
    other.key.push(4);
    assert_ne!(request, other);
    let mut other = read_request();
    other.key[0] = 0;
    assert_ne!(request, other);
    let mut other = read_request();
    other.retry_count = None;
    assert_ne!(request, other);
}

#[test]
fn call_requests_are_equal_field_by_field() {
    let request = call_request();
    assert_eq!(request, call_request());
    assert_eq!(request.clone(), request);
    let mut other = call_request();
    other.block.0[0] = 5;
    assert_ne!(request, other);
    let mut other = call_request();
    other.method.push('x');
    assert_ne!(request, other);
    let mut other = call_request();
    other.call_data.clear();
    assert_ne!(request, other);
    let mut other = call_request();
    other.retry_count = Some(0);
    assert_ne!(request, other);
}

#[test]
fn equal_requests_hash_alike() {
    assert_eq!(
        hash_of(&RemoteHeaderRequest { block: 7, retry_count: None }),
        hash_of(&RemoteHeaderRequest { block: 7, retry_count: None })
    );
    assert_eq!(hash_of(&read_request()), hash_of(&read_request()));
    assert_eq!(hash_of(&call_request()), hash_of(&call_request()));
    let mut other = read_request();
    other.key.push(0);
    assert_ne!(hash_of(&read_request()), hash_of(&other));
}

#[test]
fn header_request_owns_nothing_on_the_heap() {
    assert_eq!(RemoteHeaderRequest { block: 9, retry_count: Some(5) }.heap_size_of_children(), 0);
    assert_eq!(RemoteHeaderRequest::default().heap_size_of_children(), 0);
}

#[test]
fn read_request_owns_its_key() {
    assert_eq!(RemoteReadRequest::default().heap_size_of_children(), 0);
    let mut request = read_request();
    request.key = vec![0u8; 1000];
    let size = request.heap_size_of_children();
    assert!(size >= 1000);
    assert!(size < 1_000_000);
}

#[test]
fn call_request_owns_its_method_and_its_data() {
    assert_eq!(RemoteCallRequest::default().heap_size_of_children(), 0);
    let mut request = call_request();
    request.method = "m".repeat(300);
    request.call_data = vec![0u8; 700];
    let both = request.heap_size_of_children();
    assert!(both >= 1000);
    request.call_data = Vec::new();
    let method_only = request.heap_size_of_children();
    assert!(method_only >= 300);
    assert!(method_only < both);
}

#[test]
fn errors_are_equal_by_kind_and_content() {
    let number = ClientError::UnknownBlock(BlockId::Number(3));
    assert_eq!(number, ClientError::UnknownBlock(BlockId::Number(3)));
    assert_ne!(number, ClientError::UnknownBlock(BlockId::Number(4)));
    assert_ne!(number, ClientError::UnknownBlock(BlockId::Hash(H256([3u8; 32]))));
    assert_eq!(
        ClientError::UnknownBlock(BlockId::Hash(H256([3u8; 32]))),
        ClientError::UnknownBlock(BlockId::Hash(H256([3u8; 32])))
    );
    assert_ne!(ClientError::InvalidHeaderProof, ClientError::InvalidStorageProof);
    assert_eq!(ClientError::InvalidHeaderProof, ClientError::InvalidHeaderProof);
    assert_eq!(ClientError::InvalidStorageProof, ClientError::InvalidStorageProof);
    assert_ne!(
        ClientError::ExecutionProofFailure(ExecutionFailure::UnknownMethod),
        ClientError::ExecutionProofFailure(ExecutionFailure::IncompleteStorage)
    );
    assert_eq!(
        ClientError::ExecutionProofFailure(ExecutionFailure::MalformedArguments),
        ClientError::ExecutionProofFailure(ExecutionFailure::MalformedArguments)
    );
    assert_ne!(number, ClientError::InvalidHeaderProof);
}

#[test]
fn sizes_add_up_and_stop_at_the_maximum() {
    assert_eq!(add_sizes(0, 0), 0);
    assert_eq!(add_sizes(300, 700), 1000);
    assert_eq!(add_sizes(0, usize::MAX), usize::MAX);
    assert_eq!(add_sizes(usize::MAX - 1, 1), usize::MAX);
    assert_eq!(add_sizes(usize::MAX, 1), usize::MAX);
    assert_eq!(add_sizes(usize::MAX, usize::MAX), usize::MAX);
}

#[test]
fn call_request_reports_the_sum_of_its_parts() {
    let method = "m".repeat(300);
    let call_data = vec![0u8; 700];
    let only_method = RemoteCallRequest {
        block: H256([0u8; 32]),
        method: method.clone(),
        call_data: Vec::new(),
        retry_count: None,
    };
    let only_data = RemoteCallRequest {
        block: H256([0u8; 32]),
        method: String::new(),
        call_data: call_data.clone(),
        retry_count: None,
    };
    let read = RemoteReadRequest { block: H256([0u8; 32]), key: call_data, retry_count: None };
    assert!(only_method.heap_size_of_children() >= 300);
    assert!(only_data.heap_size_of_children() >= 700);
    assert!(read.heap_size_of_children() >= 700);
}
