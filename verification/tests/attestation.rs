use std::collections::BTreeMap;

use aws_nitro_enclaves_nsm_api::api::{AttestationDoc, Digest};
use serde_bytes::ByteBuf;

use nitro_ra::attestation::{attestation_request, try_resolve_the_response, NsmResponse};
use nitro_ra::{resolve_the_response, verify_the_certificate};

fn document_with_certificate(cert: &[u8]) -> Vec<u8> {
    let doc = AttestationDoc {
        module_id: "i-0123456789abcdef0-enc0123456789abcdef".to_string(),
        digest: Digest::SHA384,
        timestamp: 1_600_000_000_000,
        pcrs: BTreeMap::new(),
        certificate: ByteBuf::from(cert.to_vec()),
        cabundle: vec![ByteBuf::from(vec![1, 2, 3])],
        public_key: None,
        user_data: Some(ByteBuf::from(b"hello, world!".to_vec())),
        nonce: None,
    };
    serde_cbor::to_vec(&doc).unwrap()
}

#[test]
fn request_binds_key_and_user_data() {
    let r = attestation_request();
    assert_eq!(r.public_key, Some(b"my super secret key".to_vec()));
    assert_eq!(r.user_data, Some(b"hello, world!".to_vec()));
    assert_eq!(r.nonce, None);
}

#[test]
fn other_response_is_refused() {
    assert_eq!(resolve_the_response(NsmResponse::Other), Err("the response is not Attestation".to_string()));
}

#[test]
fn attestation_response_gives_certificate() {
    let cert = vec![0x30, 0x03, 0x02, 0x01, 0x05];
    let response = NsmResponse::Attestation { document: document_with_certificate(&cert) };
    assert_eq!(resolve_the_response(response), Ok(cert));
}

#[test]
fn undecodable_document_is_reported() {
    let response = NsmResponse::Attestation { document: vec![0xff, 0x00, 0x13] };
    assert_eq!(try_resolve_the_response(response), None);
    assert_eq!(
        try_resolve_the_response(NsmResponse::Other),
        Some(Err("the response is not Attestation".to_string()))
    );
    let cert = vec![9u8; 40];
    let good = NsmResponse::Attestation { document: document_with_certificate(&cert) };
    assert_eq!(try_resolve_the_response(good), Some(Ok(cert)));
}

#[test]
fn certificate_check_does_nothing() {
    verify_the_certificate();
}
