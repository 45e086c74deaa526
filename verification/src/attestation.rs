//! The attestation request sent to the Nitro secure module and the reading
//! of its response.

use vstd::prelude::*;
use vstd::utf8::encode_utf8;

use crate::trusted::{attestation_doc_certificate, cbor_attestation_certificate};

verus! {

/// An attestation request: optional public key, user data and nonce to
/// be bound into the signed attestation document.
#[derive(Clone, Debug, PartialEq, Eq)]
pub struct AttestationRequest {
    pub public_key: Option<Vec<u8>>,
    pub user_data: Option<Vec<u8>>,
    pub nonce: Option<Vec<u8>>,
}

/// What the secure module answered, as far as attestation reads it.
#[derive(Clone, Debug, PartialEq, Eq)]
pub enum NsmResponse {
    /// An attestation answer carrying its document.
    Attestation { document: Vec<u8> },
    /// Any other answer.
    Other,
}

/// The request that binds the UTF-8 text `my super secret key` as the
/// public key and `hello, world!` as user data, without a nonce.
pub fn attestation_request() -> (r: AttestationRequest)
    ensures
        r.public_key matches Some(k) && k@ == encode_utf8("my super secret key"@),
        r.user_data matches Some(u) && u@ == encode_utf8("hello, world!"@),
        r.nonce is None,
{
    let key = vstd::slice::slice_to_vec("my super secret key".as_bytes());
    let data = vstd::slice::slice_to_vec("hello, world!".as_bytes());
    AttestationRequest { public_key: Some(key), user_data: Some(data), nonce: None }
}

/// The answer can be read without failing: it is not an attestation, or
/// its document decodes.
pub open spec fn response_readable(response: NsmResponse) -> bool {
    response matches NsmResponse::Attestation { document } ==> cbor_attestation_certificate(
        document@,
    ) is Some
}

/// The infrastructure certificate carried by an attestation answer; the
/// error `the response is not Attestation` for any other answer.
pub fn resolve_the_response(response: NsmResponse) -> (r: Result<Vec<u8>, String>)
    requires
        response_readable(response),
    ensures
        match response {
            NsmResponse::Attestation { document } => r matches Ok(c)
                && cbor_attestation_certificate(document@) == Some(c@),
            NsmResponse::Other => r matches Err(e) && e@ == "the response is not Attestation"@,
        },
{
    let document = match response {
        NsmResponse::Attestation { document } => document,
        NsmResponse::Other => {
            return Err("the response is not Attestation".to_string());
        },
    };
    Ok(attestation_doc_certificate(document.as_slice()).unwrap())
}

/// As `resolve_the_response`, but `None` (in place of a panic) when the
/// attestation document does not decode.
pub fn try_resolve_the_response(response: NsmResponse) -> (r: Option<Result<Vec<u8>, String>>)
    ensures
        r is None <==> !response_readable(response),
        r matches Some(res) ==> match response {
            NsmResponse::Attestation { document } => res matches Ok(c)
                && cbor_attestation_certificate(document@) == Some(c@),
            NsmResponse::Other => res matches Err(e) && e@ == "the response is not Attestation"@,
        },
{
    if let NsmResponse::Attestation { document } = &response {
        if attestation_doc_certificate(document.as_slice()).is_none() {
            return None;
        }
    }
    Some(resolve_the_response(response))
}

/// Checking of the attestation certificate: nothing is checked.
pub fn verify_the_certificate() {
}

} // verus!
