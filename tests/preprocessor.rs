use http_dispatch::error::ConnectorError;
use http_dispatch::preprocessor::{decoded_chunks, Base64};

#[test]
fn base64_preprocessor_decodes() {
    let mut p = Base64::new();
    let mut ingest_ns = 42u64;
    let out = p.process(&mut ingest_ns, b"aGVsbG8=").unwrap();
    assert_eq!(out, vec![b"hello".to_vec()]);
    assert_eq!(ingest_ns, 42);
    assert_eq!(p.name(), "base64");
}

#[test]
fn base64_preprocessor_rejects_invalid_input() {
    let mut p = Base64::new();
    let mut ingest_ns = 0u64;
    assert_eq!(
        p.process(&mut ingest_ns, b"not base64!"),
        Err(ConnectorError::Base64Decode)
    );
}

#[test]
fn decoded_chunks_wraps_one_chunk() {
    assert_eq!(decoded_chunks(Some(vec![1, 2])), Ok(vec![vec![1, 2]]));
    assert_eq!(decoded_chunks(None), Err(ConnectorError::Base64Decode));
}
