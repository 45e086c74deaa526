//! Every call into outside crates and the system clock, each with the
//! contract the library relies on and no more.

use aws_nitro_enclaves_nsm_api::api::AttestationDoc;
use chrono::{Datelike, TimeZone, Timelike};
use ring::signature::{EcdsaKeyPair, KeyPair, ECDSA_P256_SHA256_ASN1_SIGNING};
use std::time::SystemTime;
use vstd::prelude::*;

use rustls::RootCertStore;

use crate::cert::UtcDateTime;
use crate::report::SigAlg;

verus! {

#[verifier::external_type_specification]
#[verifier::external_body]
pub struct ExEcdsaKeyPair(ring::signature::EcdsaKeyPair);

#[verifier::external_type_specification]
#[verifier::external_body]
pub struct ExSystemTime(std::time::SystemTime);

// ----- the clock -----

/// `std::time::SystemTime::now()`: the current reading of the system
/// clock. Nothing is claimed of it.
#[verifier::external_body]
pub(crate) fn system_time_now() -> SystemTime {
    SystemTime::now()
}

/// `SystemTime::duration_since(UNIX_EPOCH)` in whole seconds, `None` when
/// `t` lies before the epoch. The clock reading has no model here, so
/// nothing is claimed of the number.
#[verifier::external_body]
pub(crate) fn seconds_since_unix_epoch(t: SystemTime) -> Option<u64> {
    t.duration_since(std::time::UNIX_EPOCH).ok().map(|d| d.as_secs())
}

// ----- chrono -----

/// The calendar date and time in UTC that chrono gives for a UNIX
/// timestamp with no sub-second part.
pub uninterp spec fn chrono_utc_datetime(secs: i64) -> Option<UtcDateTime>;

/// `chrono::Utc.timestamp_opt(secs, 0).single()`, read out field by field:
/// the UTC date and time `secs` seconds after 1970-01-01T00:00:00Z, or
/// `None` when the value lies outside chrono's range. Claimed: the result
/// depends on `secs` alone, and its fields lie in the ranges chrono
/// documents (month 1-12, day 1-31, hour 0-23, minute and second 0-59).
#[verifier::external_body]
pub(crate) fn utc_datetime_from_timestamp(secs: i64) -> (r: Option<UtcDateTime>)
    ensures
        r == chrono_utc_datetime(secs),
        r matches Some(t) ==> 1 <= t.month <= 12 && 1 <= t.day <= 31 && t.hour < 24
            && t.minute < 60 && t.second < 60,
{
    chrono::Utc.timestamp_opt(secs, 0).single().map(
        |t| UtcDateTime {
            year: t.year(),
            month: t.month(),
            day: t.day(),
            hour: t.hour(),
            minute: t.minute(),
            second: t.second(),
        },
    )
}

// ----- ring -----

/// `EcdsaKeyPair::generate_pkcs8(&ECDSA_P256_SHA256_ASN1_SIGNING, &SystemRandom::new())`
/// as bytes: a fresh P-256 key pair in a PKCS#8 document, `None` when the
/// random source fails. The key rests on chance: nothing is claimed.
#[verifier::external_body]
pub(crate) fn generate_p256_pkcs8() -> Option<Vec<u8>> {
    let rng = ring::rand::SystemRandom::new();
    EcdsaKeyPair::generate_pkcs8(&ECDSA_P256_SHA256_ASN1_SIGNING, &rng).ok().map(
        |doc| doc.as_ref().to_vec(),
    )
}

/// A P-256 signing key pair as ring holds it, beside the octets of its
/// public key as ring gives them (`public_key().as_ref()`). The fields
/// are private to this module, and the one place that makes a value
/// (`p256_key_pair_from_pkcs8`) takes both from the same ring key pair,
/// so the octets are always that key pair's public key.
pub struct P256KeyPair {
    key: EcdsaKeyPair,
    public_key: Vec<u8>,
}

impl P256KeyPair {
    /// The octets of the public key (the uncompressed point).
    pub closed spec fn public_key_octets(&self) -> Seq<u8> {
        self.public_key@
    }

    /// The octets of the public key.
    pub fn public_key(&self) -> (r: &[u8])
        ensures
            r@ == self.public_key_octets(),
    {
        self.public_key.as_slice()
    }
}

/// Whether ring's parse of a PKCS#8 document as a P-256 key pair (the
/// step of `EcdsaKeyPair::from_pkcs8` before it draws the nonce key)
/// accepts `pkcs8`.
pub uninterp spec fn ring_p256_pkcs8_accepted(pkcs8: Seq<u8>) -> bool;

/// The public key octets of the key pair that ring's parse reads from the
/// PKCS#8 document `pkcs8` (the point stored in the document, which ring
/// checks against the private key).
pub uninterp spec fn p256_pkcs8_public_key(pkcs8: Seq<u8>) -> Seq<u8>;

/// `EcdsaKeyPair::from_pkcs8(&ECDSA_P256_SHA256_ASN1_SIGNING, pkcs8)`,
/// with the key pair's `public_key()` octets beside it; `None` when ring
/// rejects the document. ring parses the document (a function of `pkcs8`
/// alone) and then draws a random nonce key, which may fail; so only
/// this is claimed: a key pair comes back only when the parse accepted
/// the document, and its public key is the one that parse reads from it.
#[verifier::external_body]
pub(crate) fn p256_key_pair_from_pkcs8(pkcs8: &[u8]) -> (r: Option<P256KeyPair>)
    ensures
        r matches Some(k) ==> ring_p256_pkcs8_accepted(pkcs8@)
            && k.public_key_octets() == p256_pkcs8_public_key(pkcs8@),
{
    match EcdsaKeyPair::from_pkcs8(&ECDSA_P256_SHA256_ASN1_SIGNING, pkcs8) {
        Ok(key) => {
            let public_key = key.public_key().as_ref().to_vec();
            Some(P256KeyPair { key, public_key })
        },
        Err(_) => None,
    }
}

/// Whether ring's ECDSA P-256 SHA-256 verification (ASN.1 signature
/// form, `ECDSA_P256_SHA256_ASN1`) accepts `sig` as a signature of `msg`
/// under the uncompressed public key `pk`.
pub uninterp spec fn p256_sha256_asn1_verifies(pk: Seq<u8>, msg: Seq<u8>, sig: Seq<u8>) -> bool;

/// `key.sign(&SystemRandom::new(), message)` on ring's key pair, as
/// bytes: a randomized ASN.1 ECDSA signature of `message`, `None` when
/// ring reports a failure. Claimed: the signature is one that ring's
/// verification accepts for `message` under the key pair's public key,
/// and it is at most 72 octets (a DER SEQUENCE of two INTEGERs of at
/// most 33 content octets each, as ring formats it).
#[verifier::external_body]
pub(crate) fn ecdsa_sign(key: &P256KeyPair, message: &[u8]) -> (r: Option<Vec<u8>>)
    ensures
        r matches Some(sig) ==> p256_sha256_asn1_verifies(key.public_key_octets(), message@, sig@)
            && sig@.len() <= 72,
{
    let rng = ring::rand::SystemRandom::new();
    key.key.sign(&rng, message).ok().map(|sig| sig.as_ref().to_vec())
}

// ----- serde_cbor and the secure-module API -----

/// The certificate field of the attestation document that serde_cbor
/// decodes from `document`, `None` when it does not decode.
pub uninterp spec fn cbor_attestation_certificate(document: Seq<u8>) -> Option<Seq<u8>>;

/// `serde_cbor::from_slice::<AttestationDoc>(document)` followed by the
/// document's `certificate` field as bytes. Claimed: the result depends on
/// the octets of `document` alone.
#[verifier::external_body]
pub(crate) fn attestation_doc_certificate(document: &[u8]) -> (r: Option<Vec<u8>>)
    ensures
        match r {
            Some(c) => cbor_attestation_certificate(document@) == Some(c@),
            None => cbor_attestation_certificate(document@) is None,
        },
{
    serde_cbor::from_slice::<AttestationDoc>(document).ok().map(|doc| doc.certificate.into_vec())
}


// ----- base64 -----

/// The octets that base64 0.9 decodes from `input` with the STANDARD
/// configuration, `None` when it rejects the input.
pub uninterp spec fn base64_standard_decode(input: Seq<u8>) -> Option<Seq<u8>>;

/// The octets that base64 0.9 decodes from `input` with the MIME
/// configuration (whitespace removed first), `None` when it rejects it.
pub uninterp spec fn base64_mime_decode(input: Seq<u8>) -> Option<Seq<u8>>;

/// `base64::decode(input)`. Claimed: the result depends on `input` alone.
/// The crate computes `input.len() * 4` and `input.len() + 7`, hence the bound.
#[verifier::external_body]
pub(crate) fn decode_base64_standard(input: &[u8]) -> (r: Option<Vec<u8>>)
    requires
        input@.len() <= usize::MAX / 4,
    ensures
        match r {
            Some(v) => base64_standard_decode(input@) == Some(v@),
            None => base64_standard_decode(input@) is None,
        },
{
    base64::decode(input).ok()
}

/// `base64::decode_config(input, base64::MIME)`. Claimed: the result
/// depends on `input` alone. The crate computes `input.len() * 4` and
/// `input.len() + 7`, hence the bound.
#[verifier::external_body]
pub(crate) fn decode_base64_mime(input: &[u8]) -> (r: Option<Vec<u8>>)
    requires
        input@.len() <= usize::MAX / 4,
    ensures
        match r {
            Some(v) => base64_mime_decode(input@) == Some(v@),
            None => base64_mime_decode(input@) is None,
        },
{
    base64::decode_config(input, base64::MIME).ok()
}

// ----- webpki and rustls -----

#[verifier::external_type_specification]
#[verifier::external_body]
pub struct ExRootCertStore(rustls::RootCertStore);

#[verifier::external_type_specification]
#[verifier::external_body]
pub struct ExSignatureAlgorithm(webpki::SignatureAlgorithm);

/// The trust anchors (subject, subject public key info, name
/// constraints) that a root store holds, in order.
pub uninterp spec fn root_store_anchors(store: RootCertStore) -> Seq<
    (Seq<u8>, Seq<u8>, Option<Seq<u8>>),
>;

/// The trust anchors of the certificates in a PEM file that webpki
/// accepts, in file order; `None` when rustls cannot read the PEM file.
pub uninterp spec fn pem_trust_anchors(pem: Seq<u8>) -> Option<
    Seq<(Seq<u8>, Seq<u8>, Option<Seq<u8>>)>,
>;

/// Whether webpki parses `der` as an end-entity certificate.
pub uninterp spec fn webpki_end_entity_parses(der: Seq<u8>) -> bool;

/// webpki's answer (its error in debug form) to whether the end-entity
/// certificate `cert` is valid for a TLS server, chaining through
/// `intermediate` to one of `anchors`, at `now` seconds after the epoch,
/// with certificate signatures limited to `algs`.
pub uninterp spec fn webpki_tls_server_verdict(
    cert: Seq<u8>,
    anchors: Seq<(Seq<u8>, Seq<u8>, Option<Seq<u8>>)>,
    intermediate: Seq<u8>,
    now: u64,
    algs: Seq<SigAlg>,
) -> Result<(), Seq<char>>;

/// webpki's answer (its error in debug form) to whether `sig` is a valid
/// `alg` signature of `msg` under the key of the certificate `cert`.
pub uninterp spec fn webpki_signature_verdict(
    cert: Seq<u8>,
    alg: SigAlg,
    msg: Seq<u8>,
    sig: Seq<u8>,
) -> Result<(), Seq<char>>;

/// `rustls::RootCertStore::empty()`: a store with no trust anchor.
#[verifier::external_body]
pub(crate) fn root_store_empty() -> (r: RootCertStore)
    ensures
        root_store_anchors(r) == Seq::<(Seq<u8>, Seq<u8>, Option<Seq<u8>>)>::empty(),
{
    RootCertStore::empty()
}

/// `store.add_pem_file(&mut BufReader::new(pem))`: `false`, leaving the
/// store as it was, when rustls cannot read the PEM file; else `true`,
/// with the anchors of the accepted certificates appended.
#[verifier::external_body]
pub(crate) fn root_store_add_pem(store: &mut RootCertStore, pem: &[u8]) -> (ok: bool)
    ensures
        match pem_trust_anchors(pem@) {
            None => !ok && root_store_anchors(*final(store)) == root_store_anchors(*old(store)),
            Some(a) => ok && root_store_anchors(*final(store)) == root_store_anchors(*old(store))
                + a,
        },
{
    store.add_pem_file(&mut std::io::BufReader::new(pem)).is_ok()
}

/// The webpki signature algorithm that `alg` names; a conversion only.
#[verifier::external_body]
pub(crate) fn webpki_algorithm(alg: SigAlg) -> &'static webpki::SignatureAlgorithm {
    match alg {
        SigAlg::EcdsaP256Sha256 => &webpki::ECDSA_P256_SHA256,
        SigAlg::EcdsaP256Sha384 => &webpki::ECDSA_P256_SHA384,
        SigAlg::EcdsaP384Sha256 => &webpki::ECDSA_P384_SHA256,
        SigAlg::EcdsaP384Sha384 => &webpki::ECDSA_P384_SHA384,
        SigAlg::RsaPss2048_8192Sha256LegacyKey => &webpki::RSA_PSS_2048_8192_SHA256_LEGACY_KEY,
        SigAlg::RsaPss2048_8192Sha384LegacyKey => &webpki::RSA_PSS_2048_8192_SHA384_LEGACY_KEY,
        SigAlg::RsaPss2048_8192Sha512LegacyKey => &webpki::RSA_PSS_2048_8192_SHA512_LEGACY_KEY,
        SigAlg::RsaPkcs1_2048_8192Sha256 => &webpki::RSA_PKCS1_2048_8192_SHA256,
        SigAlg::RsaPkcs1_2048_8192Sha384 => &webpki::RSA_PKCS1_2048_8192_SHA384,
        SigAlg::RsaPkcs1_2048_8192Sha512 => &webpki::RSA_PKCS1_2048_8192_SHA512,
        SigAlg::RsaPkcs1_3072_8192Sha384 => &webpki::RSA_PKCS1_3072_8192_SHA384,
    }
}

/// `webpki::EndEntityCert::from(der).is_ok()`. Claimed: the answer depends
/// on `der` alone (webpki documents the parse as deterministic).
#[verifier::external_body]
pub(crate) fn end_entity_parses(der: &[u8]) -> (r: bool)
    ensures
        r == webpki_end_entity_parses(der@),
{
    webpki::EndEntityCert::from(der).is_ok()
}

/// `EndEntityCert::from(cert)` then `verify_is_valid_tls_server_cert` with
/// `algs`, the store's anchors, the single intermediate `intermediate` and
/// `Time::from_seconds_since_unix_epoch(now)`; errors in debug form.
/// Claimed: the answer depends on these values alone.
#[verifier::external_body]
pub(crate) fn verify_tls_server_cert(
    cert: &[u8],
    store: &RootCertStore,
    intermediate: &[u8],
    now: u64,
    algs: &[SigAlg],
) -> (r: Result<(), String>)
    ensures
        match r {
            Ok(()) => webpki_tls_server_verdict(cert@, root_store_anchors(*store), intermediate@, now, algs@) == Ok::<(), Seq<char>>(()),
            Err(e) => webpki_tls_server_verdict(cert@, root_store_anchors(*store), intermediate@, now, algs@) == Err::<(), Seq<char>>(e@),
        },
{
    let ee = webpki::EndEntityCert::from(cert).map_err(|e| format!("{:?}", e))?;
    let anchors: Vec<webpki::TrustAnchor> = store.roots.iter().map(|a| a.to_trust_anchor()).collect();
    let table: Vec<&webpki::SignatureAlgorithm> = algs.iter().map(|a| webpki_algorithm(*a)).collect();
    let time = webpki::Time::from_seconds_since_unix_epoch(now);
    ee.verify_is_valid_tls_server_cert(&table, &webpki::TLSServerTrustAnchors(&anchors), &[intermediate], time)
        .map_err(|e| format!("{:?}", e))
}

/// `EndEntityCert::from(cert)` then `verify_signature(alg, msg, sig)`;
/// errors in debug form. Claimed: the answer depends on these values alone.
#[verifier::external_body]
pub(crate) fn verify_signature_with_cert(cert: &[u8], alg: SigAlg, msg: &[u8], sig: &[u8]) -> (r:
    Result<(), String>)
    ensures
        match r {
            Ok(()) => webpki_signature_verdict(cert@, alg, msg@, sig@) == Ok::<(), Seq<char>>(()),
            Err(e) => webpki_signature_verdict(cert@, alg, msg@, sig@) == Err::<(), Seq<char>>(e@),
        },
{
    let ee = webpki::EndEntityCert::from(cert).map_err(|e| format!("{:?}", e))?;
    ee.verify_signature(webpki_algorithm(alg), msg, sig).map_err(|e| format!("{:?}", e))
}

} // verus!
