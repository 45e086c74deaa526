//! Checking a signed attestation report: the signing certificate must
//! chain to the given root for a TLS server, and the report signature must
//! verify under it.

use vstd::prelude::*;

use crate::trusted::{
    base64_mime_decode, base64_standard_decode, decode_base64_mime, decode_base64_standard,
    end_entity_parses, pem_trust_anchors, root_store_add_pem, root_store_anchors, root_store_empty,
    seconds_since_unix_epoch, system_time_now, verify_signature_with_cert, verify_tls_server_cert,
    webpki_end_entity_parses, webpki_signature_verdict, webpki_tls_server_verdict,
};

verus! {

/// Signature algorithms of the certificate path.
#[derive(Clone, Copy, Debug, PartialEq, Eq)]
pub enum SigAlg {
    EcdsaP256Sha256,
    EcdsaP256Sha384,
    EcdsaP384Sha256,
    EcdsaP384Sha384,
    RsaPss2048_8192Sha256LegacyKey,
    RsaPss2048_8192Sha384LegacyKey,
    RsaPss2048_8192Sha512LegacyKey,
    RsaPkcs1_2048_8192Sha256,
    RsaPkcs1_2048_8192Sha384,
    RsaPkcs1_2048_8192Sha512,
    RsaPkcs1_3072_8192Sha384,
}

/// The algorithms accepted for signatures along the certificate path.
pub open spec fn supported_sig_algs_spec() -> Seq<SigAlg> {
    seq![
        SigAlg::EcdsaP256Sha256,
        SigAlg::EcdsaP256Sha384,
        SigAlg::EcdsaP384Sha256,
        SigAlg::EcdsaP384Sha384,
        SigAlg::RsaPss2048_8192Sha256LegacyKey,
        SigAlg::RsaPss2048_8192Sha384LegacyKey,
        SigAlg::RsaPss2048_8192Sha512LegacyKey,
        SigAlg::RsaPkcs1_2048_8192Sha256,
        SigAlg::RsaPkcs1_2048_8192Sha384,
        SigAlg::RsaPkcs1_2048_8192Sha512,
        SigAlg::RsaPkcs1_3072_8192Sha384,
    ]
}

/// The algorithms accepted for signatures along the certificate path.
pub fn supported_sig_algs() -> (r: Vec<SigAlg>)
    ensures
        r@ == supported_sig_algs_spec(),
{
    let r = vec![
        SigAlg::EcdsaP256Sha256,
        SigAlg::EcdsaP256Sha384,
        SigAlg::EcdsaP384Sha256,
        SigAlg::EcdsaP384Sha384,
        SigAlg::RsaPss2048_8192Sha256LegacyKey,
        SigAlg::RsaPss2048_8192Sha384LegacyKey,
        SigAlg::RsaPss2048_8192Sha512LegacyKey,
        SigAlg::RsaPkcs1_2048_8192Sha256,
        SigAlg::RsaPkcs1_2048_8192Sha384,
        SigAlg::RsaPkcs1_2048_8192Sha512,
        SigAlg::RsaPkcs1_3072_8192Sha384,
    ];
    assert(r@ == supported_sig_algs_spec());
    r
}

/// The algorithm of the report signature.
pub open spec fn report_sig_alg() -> SigAlg {
    SigAlg::RsaPkcs1_2048_8192Sha256
}

/// `s` without its carriage-return (13) and line-feed (10) octets.
pub open spec fn without_line_breaks(s: Seq<u8>) -> Seq<u8>
    decreases s.len(),
{
    if s.len() == 0 {
        Seq::empty()
    } else {
        let r = without_line_breaks(s.drop_last());
        if s.last() == 13 || s.last() == 10 {
            r
        } else {
            r.push(s.last())
        }
    }
}

/// Length of `-----BEGIN CERTIFICATE-----`.
pub open spec fn pem_header_len() -> int {
    27
}

/// Length of `-----END CERTIFICATE-----`.
pub open spec fn pem_footer_len() -> int {
    25
}

/// The base64 body of a single-certificate PEM: the octets without line
/// breaks, less the header and footer lines.
pub open spec fn pem_body(pem: Seq<u8>) -> Seq<u8> {
    let t = without_line_breaks(pem);
    t.subrange(pem_header_len(), t.len() - pem_footer_len())
}

proof fn lemma_without_line_breaks(s: Seq<u8>)
    ensures
        without_line_breaks(s).len() <= s.len(),
        forall|k: int|
            0 <= k < without_line_breaks(s).len() ==> without_line_breaks(s)[k] != 13
                && without_line_breaks(s)[k] != 10,
    decreases s.len(),
{
    if s.len() > 0 {
        lemma_without_line_breaks(s.drop_last());
    }
}

/// `s` without its carriage-return and line-feed octets; every other octet
/// is kept, in order.
pub fn strip_line_breaks(s: &[u8]) -> (r: Vec<u8>)
    ensures
        r@ == without_line_breaks(s@),
        r@.len() <= s@.len(),
        forall|k: int| 0 <= k < r@.len() ==> r@[k] != 13 && r@[k] != 10,
{
    let mut r: Vec<u8> = Vec::new();
    let mut i: usize = 0;
    while i < s.len()
        invariant
            i <= s@.len(),
            r@ == without_line_breaks(s@.take(i as int)),
        decreases s@.len() - i,
    {
        assert(s@.take(i + 1).drop_last() == s@.take(i as int));
        if s[i] != 13 && s[i] != 10 {
            r.push(s[i]);
        }
        i = i + 1;
    }
    assert(s@.take(s@.len() as int) == s@);
    proof {
        lemma_without_line_breaks(s@);
    }
    r
}

/// Removing line breaks twice removes nothing more.
pub proof fn law_strip_idempotent(s: Seq<u8>)
    ensures
        without_line_breaks(without_line_breaks(s)) == without_line_breaks(s),
    decreases s.len(),
{
    if s.len() > 0 {
        let r = without_line_breaks(s.drop_last());
        law_strip_idempotent(s.drop_last());
        if !(s.last() == 13 || s.last() == 10) {
            assert(r.push(s.last()).drop_last() == r);
        }
    }
}

/// Every input is within the machine limits of the base64 decoder.
pub open spec fn report_inputs_in_bounds(sig_raw: Seq<u8>, sig_cert_raw: Seq<u8>, ca_pem: Seq<u8>) -> bool {
    &&& sig_raw.len() <= usize::MAX / 4
    &&& sig_cert_raw.len() <= usize::MAX / 4
    &&& ca_pem.len() <= usize::MAX / 4
}

/// The signing certificate, DER.
pub open spec fn signing_cert(sig_cert_raw: Seq<u8>) -> Seq<u8> {
    base64_mime_decode(sig_cert_raw).unwrap()
}

/// The root certificate, DER, from the body of the root PEM.
pub open spec fn root_cert(ca_pem: Seq<u8>) -> Seq<u8> {
    base64_mime_decode(pem_body(ca_pem)).unwrap()
}

/// Every step before the verdicts goes through: both base64 fields
/// decode, the signing certificate parses, the root PEM has a body that
/// decodes, and rustls reads the root PEM.
pub open spec fn report_checkable(sig_raw: Seq<u8>, sig_cert_raw: Seq<u8>, ca_pem: Seq<u8>) -> bool {
    &&& base64_standard_decode(sig_raw) is Some
    &&& base64_mime_decode(sig_cert_raw) is Some
    &&& webpki_end_entity_parses(signing_cert(sig_cert_raw))
    &&& without_line_breaks(ca_pem).len() >= pem_header_len() + pem_footer_len()
    &&& base64_mime_decode(pem_body(ca_pem)) is Some
    &&& pem_trust_anchors(ca_pem) is Some
}

/// Whether the signing certificate is valid for a TLS server at `now`,
/// chaining through the root certificate to the root PEM's anchors.
pub open spec fn report_chain_verdict(sig_cert_raw: Seq<u8>, ca_pem: Seq<u8>, now: u64) -> Result<
    (),
    Seq<char>,
> {
    webpki_tls_server_verdict(
        signing_cert(sig_cert_raw),
        pem_trust_anchors(ca_pem).unwrap(),
        root_cert(ca_pem),
        now,
        supported_sig_algs_spec(),
    )
}

/// The two answers of a report check, each `Err` with webpki's error in
/// debug form.
#[derive(Debug, PartialEq, Eq)]
pub struct ReportVerdict {
    /// Whether the signing certificate chains to the root for a TLS server.
    pub chain: Result<(), String>,
    /// Whether the report signature verifies under the signing certificate.
    pub signature: Result<(), String>,
}

/// webpki's answer to whether the report signature (RSA PKCS#1 with
/// SHA-256) of `attn_report_raw` verifies under the signing certificate.
pub open spec fn report_signature_verdict(
    sig_raw: Seq<u8>,
    sig_cert_raw: Seq<u8>,
    attn_report_raw: Seq<u8>,
) -> Result<(), Seq<char>> {
    webpki_signature_verdict(
        signing_cert(sig_cert_raw),
        report_sig_alg(),
        attn_report_raw,
        base64_standard_decode(sig_raw).unwrap(),
    )
}

/// `r` carries the answer `v`, with the error text as a sequence.
pub open spec fn answer_is(r: Result<(), String>, v: Result<(), Seq<char>>) -> bool {
    match r {
        Ok(()) => v == Ok::<(), Seq<char>>(()),
        Err(e) => v == Err::<(), Seq<char>>(e@),
    }
}

/// The verdicts on a report at `now` seconds after the epoch.
pub open spec fn report_verdict_at(
    v: ReportVerdict,
    sig_raw: Seq<u8>,
    sig_cert_raw: Seq<u8>,
    attn_report_raw: Seq<u8>,
    ca_pem: Seq<u8>,
    now: u64,
) -> bool {
    &&& answer_is(v.chain, report_chain_verdict(sig_cert_raw, ca_pem, now))
    &&& answer_is(v.signature, report_signature_verdict(sig_raw, sig_cert_raw, attn_report_raw))
}

/// Two checks of one report agree on the signature whatever seconds they
/// were made at (only the chain depends on the time), and checks made at
/// the same second agree on the chain too.
pub proof fn law_report_verdicts(
    v1: ReportVerdict,
    v2: ReportVerdict,
    sig_raw: Seq<u8>,
    sig_cert_raw: Seq<u8>,
    attn_report_raw: Seq<u8>,
    ca_pem: Seq<u8>,
    t1: u64,
    t2: u64,
)
    requires
        report_verdict_at(v1, sig_raw, sig_cert_raw, attn_report_raw, ca_pem, t1),
        report_verdict_at(v2, sig_raw, sig_cert_raw, attn_report_raw, ca_pem, t2),
    ensures
        (v1.signature is Ok) == (v2.signature is Ok),
        v1.signature matches Err(e1) ==> (v2.signature matches Err(e2) && e1@ == e2@),
        t1 == t2 ==> (v1.chain is Ok) == (v2.chain is Ok),
        t1 == t2 ==> (v1.chain matches Err(e1) ==> (v2.chain matches Err(e2) && e1@ == e2@)),
{
}

/// The verdicts on a report checked at `now` seconds after the epoch:
/// whether the signing certificate (MIME base64 `sig_cert_raw`) is valid
/// for a TLS server through the root certificate of `ca_pem` to the
/// anchors of `ca_pem`, and whether `sig_raw` (base64) is its signature of
/// `attn_report_raw`.
pub fn verify_cert_at(
    sig_raw: Vec<u8>,
    sig_cert_raw: Vec<u8>,
    attn_report_raw: Vec<u8>,
    ca_pem: &[u8],
    now: u64,
) -> (r: ReportVerdict)
    requires
        report_inputs_in_bounds(sig_raw@, sig_cert_raw@, ca_pem@),
        report_checkable(sig_raw@, sig_cert_raw@, ca_pem@),
    ensures
        report_verdict_at(r, sig_raw@, sig_cert_raw@, attn_report_raw@, ca_pem@, now),
{
    let sig = decode_base64_standard(sig_raw.as_slice()).unwrap();
    let cert = decode_base64_mime(sig_cert_raw.as_slice()).unwrap();
    let stripped = strip_line_breaks(ca_pem);
    let head: usize = 27;
    let tail: usize = 25;
    let full_len = stripped.len();
    let body = vstd::slice::slice_subrange(stripped.as_slice(), head, full_len - tail);
    let root = decode_base64_mime(body).unwrap();
    let mut store = root_store_empty();
    let added = root_store_add_pem(&mut store, ca_pem);
    assert(added && root_store_anchors(store) == pem_trust_anchors(ca_pem@).unwrap());
    let algs = supported_sig_algs();
    let chain = verify_tls_server_cert(cert.as_slice(), &store, root.as_slice(), now, algs.as_slice());
    let signature = verify_signature_with_cert(
        cert.as_slice(),
        SigAlg::RsaPkcs1_2048_8192Sha256,
        attn_report_raw.as_slice(),
        sig.as_slice(),
    );
    ReportVerdict { chain, signature }
}

/// The verdicts on a report checked at the current time; `None` when the
/// system clock reads earlier than the UNIX epoch.
pub fn verify_cert(
    sig_raw: Vec<u8>,
    sig_cert_raw: Vec<u8>,
    attn_report_raw: Vec<u8>,
    ca_pem: &[u8],
) -> (r: Option<ReportVerdict>)
    requires
        report_inputs_in_bounds(sig_raw@, sig_cert_raw@, ca_pem@),
        report_checkable(sig_raw@, sig_cert_raw@, ca_pem@),
    ensures
        r matches Some(v) ==> exists|now: u64|
            report_verdict_at(v, sig_raw@, sig_cert_raw@, attn_report_raw@, ca_pem@, now),
{
    verify_cert_with_clock(
        sig_raw,
        sig_cert_raw,
        attn_report_raw,
        ca_pem,
        seconds_since_unix_epoch(system_time_now()),
    )
}

/// As `verify_cert`, with the clock's reading given: `clock_secs` is the
/// whole seconds since the UNIX epoch, `None` when the clock reads before
/// it. The verdicts are those at exactly that second; `None` only for a
/// clock before the epoch.
pub fn verify_cert_with_clock(
    sig_raw: Vec<u8>,
    sig_cert_raw: Vec<u8>,
    attn_report_raw: Vec<u8>,
    ca_pem: &[u8],
    clock_secs: Option<u64>,
) -> (r: Option<ReportVerdict>)
    requires
        report_inputs_in_bounds(sig_raw@, sig_cert_raw@, ca_pem@),
        report_checkable(sig_raw@, sig_cert_raw@, ca_pem@),
    ensures
        clock_secs is None ==> r is None,
        clock_secs matches Some(now) ==> (r matches Some(v) && report_verdict_at(
            v,
            sig_raw@,
            sig_cert_raw@,
            attn_report_raw@,
            ca_pem@,
            now,
        )),
{
    match clock_secs {
        Some(now) => Some(verify_cert_at(sig_raw, sig_cert_raw, attn_report_raw, ca_pem, now)),
        None => None,
    }
}

/// The step at which a report cannot be checked.
#[derive(Clone, Debug, PartialEq, Eq)]
pub enum ReportError {
    /// The report signature is not base64.
    SignatureNotBase64,
    /// The signing certificate is not MIME base64.
    CertificateNotBase64,
    /// The signing certificate is not a DER certificate webpki accepts.
    CertificateNotDer,
    /// The root PEM is too short to hold its header and footer.
    RootPemTooShort,
    /// The body of the root PEM is not MIME base64.
    RootNotBase64,
    /// rustls cannot read the root PEM.
    RootPemUnreadable,
}

/// What checking a report gives, step by step: the first step that fails,
/// in the order the checks are made, else `None`.
pub open spec fn report_failure(sig_raw: Seq<u8>, sig_cert_raw: Seq<u8>, ca_pem: Seq<u8>) -> Option<
    ReportError,
> {
    if base64_standard_decode(sig_raw) is None {
        Some(ReportError::SignatureNotBase64)
    } else if base64_mime_decode(sig_cert_raw) is None {
        Some(ReportError::CertificateNotBase64)
    } else if !webpki_end_entity_parses(signing_cert(sig_cert_raw)) {
        Some(ReportError::CertificateNotDer)
    } else if without_line_breaks(ca_pem).len() < pem_header_len() + pem_footer_len() {
        Some(ReportError::RootPemTooShort)
    } else if base64_mime_decode(pem_body(ca_pem)) is None {
        Some(ReportError::RootNotBase64)
    } else if pem_trust_anchors(ca_pem) is None {
        Some(ReportError::RootPemUnreadable)
    } else {
        None
    }
}

/// As `verify_cert`, but with every failure that stops the check
/// answered: `Err(e)` for the first step `report_failure` names, else `Ok`
/// of `verify_cert`'s answer: `try_verify_cert_with_clock` with the
/// clock's reading in whole seconds.
pub fn try_verify_cert(
    sig_raw: Vec<u8>,
    sig_cert_raw: Vec<u8>,
    attn_report_raw: Vec<u8>,
    ca_pem: &[u8],
) -> (r: Result<Option<ReportVerdict>, ReportError>)
    requires
        report_inputs_in_bounds(sig_raw@, sig_cert_raw@, ca_pem@),
    ensures
        report_failure(sig_raw@, sig_cert_raw@, ca_pem@) matches Some(e) ==> r == Err::<
            Option<ReportVerdict>,
            ReportError,
        >(e),
        report_failure(sig_raw@, sig_cert_raw@, ca_pem@) is None ==> report_checkable(
            sig_raw@,
            sig_cert_raw@,
            ca_pem@,
        ),
        report_failure(sig_raw@, sig_cert_raw@, ca_pem@) is None ==> (r matches Ok(v) && (v matches Some(w) ==> exists|now: u64|
            report_verdict_at(w, sig_raw@, sig_cert_raw@, attn_report_raw@, ca_pem@, now))),
{
    try_verify_cert_with_clock(
        sig_raw,
        sig_cert_raw,
        attn_report_raw,
        ca_pem,
        seconds_since_unix_epoch(system_time_now()),
    )
}

/// As `try_verify_cert`, with the clock's reading given (`clock_secs`, as
/// for `verify_cert_with_clock`): `Err(e)` for the first step
/// `report_failure` names; else `Ok(None)` exactly when the clock reads
/// before the epoch, and otherwise `Ok` of the verdicts at that second.
pub fn try_verify_cert_with_clock(
    sig_raw: Vec<u8>,
    sig_cert_raw: Vec<u8>,
    attn_report_raw: Vec<u8>,
    ca_pem: &[u8],
    clock_secs: Option<u64>,
) -> (r: Result<Option<ReportVerdict>, ReportError>)
    requires
        report_inputs_in_bounds(sig_raw@, sig_cert_raw@, ca_pem@),
    ensures
        report_failure(sig_raw@, sig_cert_raw@, ca_pem@) matches Some(e) ==> r == Err::<
            Option<ReportVerdict>,
            ReportError,
        >(e),
        report_failure(sig_raw@, sig_cert_raw@, ca_pem@) is None ==> report_checkable(
            sig_raw@,
            sig_cert_raw@,
            ca_pem@,
        ),
        report_failure(sig_raw@, sig_cert_raw@, ca_pem@) is None && clock_secs is None ==> r
            matches Ok(None),
        report_failure(sig_raw@, sig_cert_raw@, ca_pem@) is None ==> (clock_secs matches Some(now)
            ==> r matches Ok(Some(v)) && report_verdict_at(
            v,
            sig_raw@,
            sig_cert_raw@,
            attn_report_raw@,
            ca_pem@,
            now,
        )),
{
    if decode_base64_standard(sig_raw.as_slice()).is_none() {
        return Err(ReportError::SignatureNotBase64);
    }
    let cert = match decode_base64_mime(sig_cert_raw.as_slice()) {
        Some(v) => v,
        None => return Err(ReportError::CertificateNotBase64),
    };
    if !end_entity_parses(cert.as_slice()) {
        return Err(ReportError::CertificateNotDer);
    }
    let stripped = strip_line_breaks(ca_pem);
    if stripped.len() < 52 {
        return Err(ReportError::RootPemTooShort);
    }
    let body = vstd::slice::slice_subrange(stripped.as_slice(), 27, stripped.len() - 25);
    if decode_base64_mime(body).is_none() {
        return Err(ReportError::RootNotBase64);
    }
    let mut store = root_store_empty();
    if !root_store_add_pem(&mut store, ca_pem) {
        return Err(ReportError::RootPemUnreadable);
    }
    Ok(verify_cert_with_clock(sig_raw, sig_cert_raw, attn_report_raw, ca_pem, clock_secs))
}

} // verus!
