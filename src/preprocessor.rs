use crate::error::ConnectorError;
use vstd::prelude::*;

verus! {

/// The bytes that standard, padded base64 text `b` decodes to; `None` when
/// `b` is not valid base64.
pub uninterp spec fn base64_decoded(b: Seq<u8>) -> Option<Seq<u8>>;

/// `base64::DecodeError`, carried opaquely and mapped to
/// `ConnectorError::Base64Decode`.
#[verifier::external_type_specification]
#[verifier::external_body]
pub struct ExDecodeError(base64::DecodeError);

/// Relies on `base64::decode` (standard alphabet): fails exactly on input
/// that is not valid base64, and its result depends on the input alone.
#[verifier::external_body]
fn decode_base64(data: &[u8]) -> (r: Result<Vec<u8>, base64::DecodeError>)
    ensures
        match r {
            Ok(v) => base64_decoded(data@) == Some(v@),
            Err(_) => base64_decoded(data@) is None,
        },
{
    base64::decode(data)
}

/// The chunks of a decoding: the decoded bytes as one chunk, or the error
/// when the data was not valid base64.
pub fn decoded_chunks(decoded: Option<Vec<u8>>) -> (r: Result<Vec<Vec<u8>>, ConnectorError>)
    ensures
        match decoded {
            Some(d) => r is Ok && r->Ok_0@.len() == 1 && r->Ok_0@[0]@ == d@,
            None => r == Err::<Vec<Vec<u8>>, ConnectorError>(ConnectorError::Base64Decode),
        },
{
    match decoded {
        Some(v) => {
            let mut out: Vec<Vec<u8>> = Vec::new();
            out.push(v);
            Ok(out)
        },
        None => Err(ConnectorError::Base64Decode),
    }
}

/// A preprocessor that decodes base64 encoded data to the raw bytes.
#[derive(Clone, Debug)]
pub struct Base64 {}

impl Base64 {
    pub fn new() -> (r: Self) {
        Base64 {  }
    }

    pub fn name(&self) -> (r: &'static str)
        ensures
            r@ == "base64"@,
    {
        "base64"
    }

    /// Decodes `data` into exactly one chunk of raw bytes.
    pub fn process(&mut self, ingest_ns: &mut u64, data: &[u8]) -> (r: Result<
        Vec<Vec<u8>>,
        ConnectorError,
    >)
        ensures
            *final(ingest_ns) == *old(ingest_ns),
            match base64_decoded(data@) {
                Some(d) => r is Ok && r->Ok_0@.len() == 1 && r->Ok_0@[0]@ == d,
                None => r == Err::<Vec<Vec<u8>>, ConnectorError>(ConnectorError::Base64Decode),
            },
    {
        let decoded = match decode_base64(data) {
            Ok(v) => Some(v),
            Err(_) => None,
        };
        decoded_chunks(decoded)
    }
}

} // verus!
