//! The self-signed ECDSA P-256 certificate that carries an attestation
//! payload in a Netscape-comment extension.

use vstd::prelude::*;

use vstd::utf8::encode_utf8;

use crate::trusted::{
    chrono_utc_datetime, ecdsa_sign, generate_p256_pkcs8, p256_key_pair_from_pkcs8,
    p256_pkcs8_public_key, p256_sha256_asn1_verifies, ring_p256_pkcs8_accepted, P256KeyPair,
    seconds_since_unix_epoch, system_time_now, utc_datetime_from_timestamp,
};
use crate::der::{
    decode_tlv, der_length, law_tlv_round_trip, lemma_der_length_bounds, lemma_der_length_len,
    lemma_uint_content_len,
    encode_oid_content, encode_tlv, encode_uint_content, oid_content, tlv, uint_content, valid_oid,
};

verus! {

/// A UTC calendar date and time, to the second.
#[derive(Clone, Copy, Debug, PartialEq, Eq)]
pub struct UtcDateTime {
    pub year: i32,
    pub month: u32,
    pub day: u32,
    pub hour: u32,
    pub minute: u32,
    pub second: u32,
}

/// Days from issue to expiry of a generated certificate.
pub const CERTEXPIRYDAYS: i64 = 90i64;

/// Seconds from issue to expiry of a generated certificate.
pub open spec fn validity_seconds() -> nat {
    (CERTEXPIRYDAYS * 86400) as nat
}

/// A UTCTime can hold it: a year from 1950 through 2049 and every field
/// within its calendar range.
pub open spec fn utc_time_representable(t: UtcDateTime) -> bool {
    &&& 1950 <= t.year < 2050
    &&& 1 <= t.month <= 12
    &&& 1 <= t.day <= 31
    &&& t.hour < 24
    &&& t.minute < 60
    &&& t.second < 60
}

/// The two ASCII decimal digits of `v mod 100`.
pub open spec fn two_digits(v: int) -> Seq<u8> {
    seq![(v / 10 % 10 + 48) as u8, (v % 10 + 48) as u8]
}

/// Content of a UTCTime: `YYMMDDhhmmssZ`.
pub open spec fn utc_time_content(t: UtcDateTime) -> Seq<u8> {
    two_digits(t.year as int) + two_digits(t.month as int) + two_digits(t.day as int) + two_digits(
        t.hour as int,
    ) + two_digits(t.minute as int) + two_digits(t.second as int) + seq![90u8]
}

/// ecdsa-with-SHA256, 1.2.840.10045.4.3.2
pub open spec fn ecdsa_with_sha256_arcs() -> Seq<u64> {
    seq![1, 2, 840, 10045, 4, 3, 2]
}

/// id-at-commonName, 2.5.4.3
pub open spec fn common_name_arcs() -> Seq<u64> {
    seq![2, 5, 4, 3]
}

/// id-ecPublicKey, 1.2.840.10045.2.1
pub open spec fn ec_public_key_arcs() -> Seq<u64> {
    seq![1, 2, 840, 10045, 2, 1]
}

/// prime256v1, 1.2.840.10045.3.1.7
pub open spec fn prime256v1_arcs() -> Seq<u64> {
    seq![1, 2, 840, 10045, 3, 1, 7]
}

/// Netscape comment, 2.16.840.1.113730.1.13: the extension that carries
/// the payload.
pub open spec fn netscape_comment_arcs() -> Seq<u64> {
    seq![2, 16, 840, 1, 113730, 1, 13]
}

/// The UTF-8 octets of `MesaTEE`, the common name of issuer and subject.
pub open spec fn common_name_value() -> Seq<u8> {
    seq![77u8, 101, 115, 97, 84, 69, 69]
}

/// An OBJECT IDENTIFIER element.
pub open spec fn oid_der(arcs: Seq<u64>) -> Seq<u8> {
    tlv(0x06, oid_content(arcs))
}

/// A BIT STRING element over whole octets (no unused bits).
pub open spec fn bit_string_der(bytes: Seq<u8>) -> Seq<u8> {
    tlv(0x03, seq![0u8] + bytes)
}

/// `Name ::= SEQUENCE { SET { SEQUENCE { commonName, UTF8String "MesaTEE" } } }`
pub open spec fn name_der() -> Seq<u8> {
    tlv(
        0x30,
        tlv(0x31, tlv(0x30, oid_der(common_name_arcs()) + tlv(0x0c, common_name_value()))),
    )
}

/// `Validity ::= SEQUENCE { notBefore UTCTime, notAfter UTCTime }`
pub open spec fn validity_der(not_before: UtcDateTime, not_after: UtcDateTime) -> Seq<u8> {
    tlv(0x30, tlv(0x17, utc_time_content(not_before)) + tlv(0x17, utc_time_content(not_after)))
}

/// `SubjectPublicKeyInfo` for a P-256 key whose octets are `key`.
pub open spec fn public_key_info_der(key: Seq<u8>) -> Seq<u8> {
    tlv(
        0x30,
        tlv(0x30, oid_der(ec_public_key_arcs()) + oid_der(prime256v1_arcs())) + bit_string_der(key),
    )
}

/// `[3] { SEQUENCE { SEQUENCE { netscape-comment, OCTET STRING payload } } }`
pub open spec fn extensions_der(payload: Seq<u8>) -> Seq<u8> {
    tlv(0xa3, tlv(0x30, tlv(0x30, oid_der(netscape_comment_arcs()) + tlv(0x04, payload))))
}

/// `AlgorithmIdentifier` of ecdsa-with-SHA256, without parameters.
pub open spec fn signature_algorithm_der() -> Seq<u8> {
    tlv(0x30, oid_der(ecdsa_with_sha256_arcs()))
}

/// The to-be-signed certificate: version 3 (`[0] INTEGER 2`), serial 1,
/// the signature algorithm, issuer, validity, subject, key and extension.
pub open spec fn tbs_certificate_der(
    payload: Seq<u8>,
    key: Seq<u8>,
    not_before: UtcDateTime,
    not_after: UtcDateTime,
) -> Seq<u8> {
    tlv(
        0x30,
        tlv(0xa0, tlv(0x02, seq![2u8])) + tlv(0x02, seq![1u8]) + signature_algorithm_der()
            + name_der() + validity_der(not_before, not_after) + name_der() + public_key_info_der(key)
            + extensions_der(payload),
    )
}

/// The octets handed to the signer: the encoded to-be-signed certificate
/// followed by the encoded signature algorithm, as they stand after the
/// opening of the outer SEQUENCE.
pub open spec fn signing_input(tbs: Seq<u8>) -> Seq<u8> {
    tbs + signature_algorithm_der()
}

/// `SEQUENCE { INTEGER, INTEGER }` from a raw signature: each half (the
/// first 32 octets, then the rest) reversed and read as an unsigned
/// big-endian magnitude.
pub open spec fn signature_value_der(sig: Seq<u8>) -> Seq<u8> {
    tlv(
        0x30,
        tlv(0x02, uint_content(sig.take(32).reverse())) + tlv(
            0x02,
            uint_content(sig.skip(32).reverse()),
        ),
    )
}

/// `Certificate ::= SEQUENCE { tbs, signatureAlgorithm, BIT STRING signature }`
pub open spec fn certificate_der(tbs: Seq<u8>, sig: Seq<u8>) -> Seq<u8> {
    tlv(0x30, tbs + signature_algorithm_der() + bit_string_der(signature_value_der(sig)))
}

/// The fields a reader takes from a UTCTime content `YYMMDDhhmmssZ`:
/// the two-digit year, month, day, hour, minute and second.
pub open spec fn read_utc_time(c: Seq<u8>) -> (int, int, int, int, int, int) {
    let d = |i: int| ((c[i] - 48) * 10 + (c[i + 1] - 48)) as int;
    (d(0), d(2), d(4), d(6), d(8), d(10))
}

/// A written UTCTime is 13 octets ending in `Z` and reads back as the
/// year modulo 100 and the other fields unchanged.
pub proof fn law_utc_time_round_trip(t: UtcDateTime)
    requires
        utc_time_representable(t),
    ensures
        utc_time_content(t).len() == 13,
        utc_time_content(t)[12] == 90,
        read_utc_time(utc_time_content(t)) == (
            t.year as int % 100,
            t.month as int,
            t.day as int,
            t.hour as int,
            t.minute as int,
            t.second as int,
        ),
{
    let c = utc_time_content(t);
    assert(c[0] == (t.year / 10 % 10 + 48) as u8);
    assert(c[1] == (t.year % 10 + 48) as u8);
    assert((t.year / 10 % 10) * 10 + t.year % 10 == t.year % 100);
}

/// A reader of the extension block finds, through the `[3]` tag and its
/// two SEQUENCEs, the Netscape-comment identifier followed by an OCTET
/// STRING holding exactly the payload.
pub proof fn law_extension_carries_payload(payload: Seq<u8>)
    requires
        payload.len() <= usize::MAX / 2,
    ensures
        ({
            let value = tlv(0x04, payload);
            let inner = oid_der(netscape_comment_arcs()) + value;
            let ext = tlv(0x30, inner);
            let exts = tlv(0x30, ext);
            &&& decode_tlv(extensions_der(payload)) == Some((0xa3u8, exts, extensions_der(payload).len()))
            &&& decode_tlv(exts) == Some((0x30u8, ext, exts.len()))
            &&& decode_tlv(ext) == Some((0x30u8, inner, ext.len()))
            &&& decode_tlv(inner) == Some((0x06u8, oid_content(netscape_comment_arcs()), oid_der(netscape_comment_arcs()).len()))
            &&& decode_tlv(inner.skip(oid_der(netscape_comment_arcs()).len() as int)) == Some((0x04u8, payload, value.len()))
        }),
{
    let value = tlv(0x04, payload);
    let oid = oid_der(netscape_comment_arcs());
    let inner = oid + value;
    let ext = tlv(0x30, inner);
    let exts = tlv(0x30, ext);
    let oc = oid_content(netscape_comment_arcs());
    assert(oc.len() <= 64) by {
        reveal_with_fuel(crate::der::oid_arcs, 8);
        reveal_with_fuel(crate::der::base128_high, 4);
    }
    lemma_der_length_len(payload.len() as usize);
    lemma_der_length_len(oc.len() as usize);
    assert(value.len() <= payload.len() + 10);
    assert(oid.len() <= 74);
    lemma_der_length_len(inner.len() as usize);
    lemma_der_length_len(ext.len() as usize);
    law_tlv_round_trip(0xa3, exts, Seq::empty());
    assert(extensions_der(payload) + Seq::<u8>::empty() == extensions_der(payload));
    law_tlv_round_trip(0x30, ext, Seq::empty());
    assert(exts + Seq::<u8>::empty() == exts);
    law_tlv_round_trip(0x30, inner, Seq::empty());
    assert(ext + Seq::<u8>::empty() == ext);
    law_tlv_round_trip(0x06, oc, value);
    law_tlv_round_trip(0x04, payload, Seq::empty());
    assert(inner.skip(oid.len() as int) == value);
    assert(value + Seq::<u8>::empty() == value);
}

// ----- executable pieces -----

fn arcs_ecdsa_with_sha256() -> (r: Vec<u64>)
    ensures
        r@ == ecdsa_with_sha256_arcs(),
        valid_oid(r@),
{
    let r: Vec<u64> = vec![1, 2, 840, 10045, 4, 3, 2];
    assert(r@ == ecdsa_with_sha256_arcs());
    r
}

fn arcs_common_name() -> (r: Vec<u64>)
    ensures
        r@ == common_name_arcs(),
        valid_oid(r@),
{
    let r: Vec<u64> = vec![2, 5, 4, 3];
    assert(r@ == common_name_arcs());
    r
}

fn arcs_ec_public_key() -> (r: Vec<u64>)
    ensures
        r@ == ec_public_key_arcs(),
        valid_oid(r@),
{
    let r: Vec<u64> = vec![1, 2, 840, 10045, 2, 1];
    assert(r@ == ec_public_key_arcs());
    r
}

fn arcs_prime256v1() -> (r: Vec<u64>)
    ensures
        r@ == prime256v1_arcs(),
        valid_oid(r@),
{
    let r: Vec<u64> = vec![1, 2, 840, 10045, 3, 1, 7];
    assert(r@ == prime256v1_arcs());
    r
}

fn arcs_netscape_comment() -> (r: Vec<u64>)
    ensures
        r@ == netscape_comment_arcs(),
        valid_oid(r@),
{
    let r: Vec<u64> = vec![2, 16, 840, 1, 113730, 1, 13];
    assert(r@ == netscape_comment_arcs());
    r
}

/// An OBJECT IDENTIFIER element with the given arcs.
pub fn encode_oid(arcs: &[u64]) -> (r: Vec<u8>)
    requires
        valid_oid(arcs@),
    ensures
        r@ == oid_der(arcs@),
{
    let content = encode_oid_content(arcs);
    encode_tlv(0x06, content.as_slice())
}

/// A BIT STRING element over whole octets.
pub fn encode_bit_string(bytes: &[u8]) -> (r: Vec<u8>)
    ensures
        r@ == bit_string_der(bytes@),
{
    let mut content: Vec<u8> = Vec::new();
    content.push(0);
    let mut body = vstd::slice::slice_to_vec(bytes);
    content.append(&mut body);
    encode_tlv(0x03, content.as_slice())
}

fn push_two_digits(out: &mut Vec<u8>, v: u32)
    ensures
        final(out)@ == old(out)@ + two_digits(v as int),
{
    out.push((v / 10 % 10 + 48) as u8);
    out.push((v % 10 + 48) as u8);
}

/// A UTCTime element.
pub fn encode_utc_time(t: &UtcDateTime) -> (r: Vec<u8>)
    requires
        utc_time_representable(*t),
    ensures
        r@ == tlv(0x17, utc_time_content(*t)),
{
    let mut c: Vec<u8> = Vec::new();
    push_two_digits(&mut c, t.year as u32);
    push_two_digits(&mut c, t.month);
    push_two_digits(&mut c, t.day);
    push_two_digits(&mut c, t.hour);
    push_two_digits(&mut c, t.minute);
    push_two_digits(&mut c, t.second);
    c.push(90);
    assert(c@ == utc_time_content(*t));
    encode_tlv(0x17, c.as_slice())
}


fn concat(a: &[u8], b: &[u8]) -> (r: Vec<u8>)
    ensures
        r@ == a@ + b@,
{
    let mut r = vstd::slice::slice_to_vec(a);
    let mut tail = vstd::slice::slice_to_vec(b);
    r.append(&mut tail);
    r
}

/// The issuer (and subject) name.
pub fn encode_name() -> (r: Vec<u8>)
    ensures
        r@ == name_der(),
{
    let cn = encode_oid(arcs_common_name().as_slice());
    let value: Vec<u8> = vec![77, 101, 115, 97, 84, 69, 69];
    assert(value@ == common_name_value());
    let value_der = encode_tlv(0x0c, value.as_slice());
    let attr = encode_tlv(0x30, concat(cn.as_slice(), value_der.as_slice()).as_slice());
    let set = encode_tlv(0x31, attr.as_slice());
    encode_tlv(0x30, set.as_slice())
}

/// The validity period.
pub fn encode_validity(not_before: &UtcDateTime, not_after: &UtcDateTime) -> (r: Vec<u8>)
    requires
        utc_time_representable(*not_before),
        utc_time_representable(*not_after),
    ensures
        r@ == validity_der(*not_before, *not_after),
{
    let a = encode_utc_time(not_before);
    let b = encode_utc_time(not_after);
    encode_tlv(0x30, concat(a.as_slice(), b.as_slice()).as_slice())
}

/// The subject public key information for the P-256 key octets `key`.
pub fn encode_public_key_info(key: &[u8]) -> (r: Vec<u8>)
    ensures
        r@ == public_key_info_der(key@),
{
    let alg = encode_oid(arcs_ec_public_key().as_slice());
    let curve = encode_oid(arcs_prime256v1().as_slice());
    let alg_id = encode_tlv(0x30, concat(alg.as_slice(), curve.as_slice()).as_slice());
    let bits = encode_bit_string(key);
    encode_tlv(0x30, concat(alg_id.as_slice(), bits.as_slice()).as_slice())
}

/// The extension block that carries `payload`.
pub fn encode_extensions(payload: &[u8]) -> (r: Vec<u8>)
    ensures
        r@ == extensions_der(payload@),
{
    let oid = encode_oid(arcs_netscape_comment().as_slice());
    let value = encode_tlv(0x04, payload);
    let ext = encode_tlv(0x30, concat(oid.as_slice(), value.as_slice()).as_slice());
    let exts = encode_tlv(0x30, ext.as_slice());
    encode_tlv(0xa3, exts.as_slice())
}

/// The signature algorithm identifier, ecdsa-with-SHA256.
pub fn encode_signature_algorithm() -> (r: Vec<u8>)
    ensures
        r@ == signature_algorithm_der(),
{
    let oid = encode_oid(arcs_ecdsa_with_sha256().as_slice());
    encode_tlv(0x30, oid.as_slice())
}

/// The to-be-signed certificate for `payload` and the key octets `key`,
/// valid from `not_before` to `not_after`.
pub fn tbs_certificate(
    payload: &[u8],
    key: &[u8],
    not_before: &UtcDateTime,
    not_after: &UtcDateTime,
) -> (r: Vec<u8>)
    requires
        utc_time_representable(*not_before),
        utc_time_representable(*not_after),
    ensures
        r@ == tbs_certificate_der(payload@, key@, *not_before, *not_after),
{
    let two: Vec<u8> = vec![2];
    let one: Vec<u8> = vec![1];
    let version = encode_tlv(0xa0, encode_tlv(0x02, two.as_slice()).as_slice());
    let serial = encode_tlv(0x02, one.as_slice());
    let mut c: Vec<u8> = Vec::new();
    let mut part = version;
    c.append(&mut part);
    let mut part = serial;
    c.append(&mut part);
    let mut part = encode_signature_algorithm();
    c.append(&mut part);
    let mut part = encode_name();
    c.append(&mut part);
    let mut part = encode_validity(not_before, not_after);
    c.append(&mut part);
    let mut part = encode_name();
    c.append(&mut part);
    let mut part = encode_public_key_info(key);
    c.append(&mut part);
    let mut part = encode_extensions(payload);
    c.append(&mut part);
    assert(two@ == seq![2u8]);
    assert(one@ == seq![1u8]);
    encode_tlv(0x30, c.as_slice())
}

/// The octets to sign for the to-be-signed certificate `tbs`.
pub fn signing_input_of(tbs: &[u8]) -> (r: Vec<u8>)
    ensures
        r@ == signing_input(tbs@),
{
    let alg = encode_signature_algorithm();
    concat(tbs, alg.as_slice())
}

fn reversed(s: &[u8]) -> (r: Vec<u8>)
    ensures
        r@ == s@.reverse(),
{
    let mut r: Vec<u8> = Vec::new();
    let mut i: usize = s.len();
    while i > 0
        invariant
            i <= s@.len(),
            r@.len() == s@.len() - i,
            forall|j: int| 0 <= j < r@.len() ==> r@[j] == s@[s@.len() - 1 - j],
        decreases i,
    {
        i = i - 1;
        r.push(s[i]);
    }
    assert(r@ == s@.reverse());
    r
}

/// The signature value `SEQUENCE { INTEGER, INTEGER }` built from a raw
/// signature of at least 32 octets.
pub fn encode_signature_value(sig: &[u8]) -> (r: Vec<u8>)
    requires
        sig@.len() >= 32,
    ensures
        r@ == signature_value_der(sig@),
{
    let first = vstd::slice::slice_subrange(sig, 0, 32);
    let second = vstd::slice::slice_subrange(sig, 32, sig.len());
    assert(first@ == sig@.take(32));
    assert(second@ == sig@.skip(32));
    let x = encode_uint_content(reversed(first).as_slice());
    let y = encode_uint_content(reversed(second).as_slice());
    let xi = encode_tlv(0x02, x.as_slice());
    let yi = encode_tlv(0x02, y.as_slice());
    encode_tlv(0x30, concat(xi.as_slice(), yi.as_slice()).as_slice())
}

/// The certificate from its to-be-signed part and a raw signature of at
/// least 32 octets.
pub fn assemble_certificate(tbs: &[u8], sig: &[u8]) -> (r: Vec<u8>)
    requires
        sig@.len() >= 32,
    ensures
        r@ == certificate_der(tbs@, sig@),
{
    let alg = encode_signature_algorithm();
    let value = encode_signature_value(sig);
    let bits = encode_bit_string(value.as_slice());
    let head = concat(tbs, alg.as_slice());
    encode_tlv(0x30, concat(head.as_slice(), bits.as_slice()).as_slice())
}


// ----- generating a certificate -----

/// Why no certificate was produced.
#[derive(Clone, Copy, Debug, PartialEq, Eq)]
pub enum CertError {
    /// The system clock reads earlier than 1970-01-01T00:00:00Z.
    ClockBeforeEpoch,
    /// The issue or expiry time lies outside the representable range.
    TimeOutOfRange,
    /// The issue or expiry year lies outside 1950 through 2049.
    YearNotRepresentable,
    /// The signer reported a failure.
    SigningFailed,
    /// The signature is shorter than 32 octets.
    ShortSignature,
}

impl CertError {
    pub open spec fn message_text(self) -> Seq<char> {
        match self {
            CertError::ClockBeforeEpoch => "system clock is before the UNIX epoch"@,
            CertError::TimeOutOfRange => "certificate validity time is out of range"@,
            CertError::YearNotRepresentable => "certificate validity year cannot be written as UTCTime"@,
            CertError::SigningFailed => "signing the certificate failed"@,
            CertError::ShortSignature => "signature is shorter than 32 bytes"@,
        }
    }

    /// A human-readable description of the error.
    pub fn message(&self) -> (r: String)
        ensures
            r@ == self.message_text(),
    {
        match self {
            CertError::ClockBeforeEpoch => "system clock is before the UNIX epoch".to_string(),
            CertError::TimeOutOfRange => "certificate validity time is out of range".to_string(),
            CertError::YearNotRepresentable => "certificate validity year cannot be written as UTCTime".to_string(),
            CertError::SigningFailed => "signing the certificate failed".to_string(),
            CertError::ShortSignature => "signature is shorter than 32 bytes".to_string(),
        }
    }
}

/// Issue and expiry time of a certificate generated `now` seconds after
/// the UNIX epoch: the calendar times of `now` and of `now` plus
/// `CERTEXPIRYDAYS` days (each second count read as a signed 64-bit
/// number, wrapping), both of which UTCTime must be able to hold.
pub open spec fn validity_period(now: u64) -> Result<(UtcDateTime, UtcDateTime), CertError> {
    match chrono_utc_datetime(now as i64) {
        None => Err(CertError::TimeOutOfRange),
        Some(issue) => if now + validity_seconds() > u64::MAX {
            Err(CertError::TimeOutOfRange)
        } else {
            match chrono_utc_datetime((now + validity_seconds()) as u64 as i64) {
                None => Err(CertError::TimeOutOfRange),
                Some(expire) => if utc_time_representable(issue) && utc_time_representable(
                    expire,
                ) {
                    Ok((issue, expire))
                } else {
                    Err(CertError::YearNotRepresentable)
                },
            }
        },
    }
}

/// Issue and expiry time of a certificate generated `now` seconds after
/// the UNIX epoch.
pub fn validity_period_at(now: u64) -> (r: Result<(UtcDateTime, UtcDateTime), CertError>)
    ensures
        r == validity_period(now),
{
    let issue = match utc_datetime_from_timestamp(now as i64) {
        Some(t) => t,
        None => return Err(CertError::TimeOutOfRange),
    };
    let span: u64 = (CERTEXPIRYDAYS as u64) * 86400;
    if now > u64::MAX - span {
        return Err(CertError::TimeOutOfRange);
    }
    let later: u64 = now + span;
    let expire = match utc_datetime_from_timestamp(later as i64) {
        Some(t) => t,
        None => return Err(CertError::TimeOutOfRange),
    };
    if 1950 <= issue.year && issue.year < 2050 && 1950 <= expire.year && expire.year < 2050 {
        Ok((issue, expire))
    } else {
        Err(CertError::YearNotRepresentable)
    }
}

/// The certificate from its to-be-signed part and a raw signature; the
/// error `ShortSignature` when the signature has fewer than 32 octets.
pub fn certificate_from_signature(tbs: &[u8], sig: &[u8]) -> (r: Result<Vec<u8>, CertError>)
    ensures
        match r {
            Ok(c) => sig@.len() >= 32 && c@ == certificate_der(tbs@, sig@),
            Err(e) => sig@.len() < 32 && e == CertError::ShortSignature,
        },
{
    if sig.len() < 32 {
        Err(CertError::ShortSignature)
    } else {
        Ok(assemble_certificate(tbs, sig))
    }
}

/// The certificate from its to-be-signed part and what the signer gave
/// back: `SigningFailed` when it reported a failure (`None`), else as
/// `certificate_from_signature`.
pub fn certificate_from_signer(tbs: &[u8], signed: Option<Vec<u8>>) -> (r: Result<Vec<u8>, CertError>)
    ensures
        signed is None ==> r == Err::<Vec<u8>, CertError>(CertError::SigningFailed),
        signed matches Some(sig) ==> match r {
            Ok(c) => sig@.len() >= 32 && c@ == certificate_der(tbs@, sig@),
            Err(e) => sig@.len() < 32 && e == CertError::ShortSignature,
        },
{
    match signed {
        None => Err(CertError::SigningFailed),
        Some(sig) => certificate_from_signature(tbs, sig.as_slice()),
    }
}

/// `cert` is the certificate for `payload` and key octets `key` issued at
/// clock reading `now` (valid from `not_before` to `not_after`), whose
/// signature `sig`, of 32 to 72 octets, is one that ring's P-256 SHA-256
/// verification accepts under the public key `pk` for the octets that were
/// to be signed: the to-be-signed part followed by the signature algorithm.
pub open spec fn ecc_certificate_signed(
    payload: Seq<u8>,
    key: Seq<u8>,
    now: u64,
    not_before: UtcDateTime,
    not_after: UtcDateTime,
    pk: Seq<u8>,
    sig: Seq<u8>,
    cert: Seq<u8>,
) -> bool {
    let tbs = tbs_certificate_der(payload, key, not_before, not_after);
    &&& validity_period(now) == Ok::<(UtcDateTime, UtcDateTime), CertError>((not_before, not_after))
    &&& 32 <= sig.len() <= 72
    &&& p256_sha256_asn1_verifies(pk, signing_input(tbs), sig)
    &&& cert == certificate_der(tbs, sig)
}

/// `cert` is a certificate for `payload` and key octets `key` made at
/// clock reading `now` and signed under the public key `pk`, as
/// `ecc_certificate_signed` describes.
pub open spec fn ecc_certificate_made_at(
    payload: Seq<u8>,
    key: Seq<u8>,
    now: u64,
    pk: Seq<u8>,
    cert: Seq<u8>,
) -> bool {
    exists|nb: UtcDateTime, na: UtcDateTime, sig: Seq<u8>|
        #[trigger] ecc_certificate_signed(payload, key, now, nb, na, pk, sig, cert)
}

/// `cert` is a certificate for `payload` and key octets `key` made at
/// some clock reading and signed under the public key `pk`.
pub open spec fn ecc_certificate_issued(
    payload: Seq<u8>,
    key: Seq<u8>,
    pk: Seq<u8>,
    cert: Seq<u8>,
) -> bool {
    exists|now: u64| #[trigger] ecc_certificate_made_at(payload, key, now, pk, cert)
}

/// Two certificates made for the same payload and key octets at the same
/// clock second, under any two keys, consist of one common to-be-signed
/// part followed by the signature algorithm and a signature: the key
/// pair and the randomness reach only the signature.
pub proof fn law_same_second_same_tbs(
    payload: Seq<u8>,
    key: Seq<u8>,
    now: u64,
    pk1: Seq<u8>,
    cert1: Seq<u8>,
    pk2: Seq<u8>,
    cert2: Seq<u8>,
)
    requires
        ecc_certificate_made_at(payload, key, now, pk1, cert1),
        ecc_certificate_made_at(payload, key, now, pk2, cert2),
    ensures
        exists|nb: UtcDateTime, na: UtcDateTime, s1: Seq<u8>, s2: Seq<u8>|
            #![trigger certificate_der(tbs_certificate_der(payload, key, nb, na), s1), certificate_der(tbs_certificate_der(payload, key, nb, na), s2)]
            validity_period(now) == Ok::<(UtcDateTime, UtcDateTime), CertError>((nb, na))
                && cert1 == certificate_der(tbs_certificate_der(payload, key, nb, na), s1)
                && cert2 == certificate_der(tbs_certificate_der(payload, key, nb, na), s2),
{
    let (nb1, na1, s1) = choose|nb: UtcDateTime, na: UtcDateTime, sig: Seq<u8>|
        #[trigger] ecc_certificate_signed(payload, key, now, nb, na, pk1, sig, cert1);
    let (nb2, na2, s2) = choose|nb: UtcDateTime, na: UtcDateTime, sig: Seq<u8>|
        #[trigger] ecc_certificate_signed(payload, key, now, nb, na, pk2, sig, cert2);
    assert(nb1 == nb2 && na1 == na2);
    assert(cert1 == certificate_der(tbs_certificate_der(payload, key, nb1, na1), s1));
    assert(cert2 == certificate_der(tbs_certificate_der(payload, key, nb1, na1), s2));
}

/// A certificate made at clock second `now` is valid from the UTC time of
/// `now` to the UTC time `CERTEXPIRYDAYS` days later, both years within
/// 1950 through 2049: its to-be-signed part carries exactly those two
/// times, and its signature verifies under `pk` for that part followed
/// by the signature algorithm.
pub proof fn law_certificate_validity(payload: Seq<u8>, key: Seq<u8>, now: u64, pk: Seq<u8>, cert: Seq<u8>)
    requires
        ecc_certificate_made_at(payload, key, now, pk, cert),
    ensures
        now + CERTEXPIRYDAYS * 86400 <= u64::MAX,
        exists|nb: UtcDateTime, na: UtcDateTime, sig: Seq<u8>|
            #![trigger certificate_der(tbs_certificate_der(payload, key, nb, na), sig)]
            {
                &&& chrono_utc_datetime(now as i64) == Some(nb)
                &&& chrono_utc_datetime((now + CERTEXPIRYDAYS * 86400) as i64) == Some(na)
                &&& 1950 <= nb.year < 2050
                &&& 1950 <= na.year < 2050
                &&& cert == certificate_der(tbs_certificate_der(payload, key, nb, na), sig)
                &&& p256_sha256_asn1_verifies(
                    pk,
                    tbs_certificate_der(payload, key, nb, na) + signature_algorithm_der(),
                    sig,
                )
            },
{
    let (nb, na, sig) = choose|nb: UtcDateTime, na: UtcDateTime, sig: Seq<u8>|
        #[trigger] ecc_certificate_signed(payload, key, now, nb, na, pk, sig, cert);
    assert(cert == certificate_der(tbs_certificate_der(payload, key, nb, na), sig));
}

proof fn lemma_certificate_made_at(
    payload: Seq<u8>,
    key: Seq<u8>,
    now: u64,
    nb: UtcDateTime,
    na: UtcDateTime,
    pk: Seq<u8>,
    sig: Seq<u8>,
    cert: Seq<u8>,
)
    requires
        ecc_certificate_signed(payload, key, now, nb, na, pk, sig, cert),
    ensures
        ecc_certificate_made_at(payload, key, now, pk, cert),
{
}

proof fn lemma_certificate_issued(payload: Seq<u8>, key: Seq<u8>, now: u64, pk: Seq<u8>, cert: Seq<u8>)
    requires
        ecc_certificate_made_at(payload, key, now, pk, cert),
    ensures
        ecc_certificate_issued(payload, key, pk, cert),
{
}

proof fn lemma_fixed_part_lengths(not_before: UtcDateTime, not_after: UtcDateTime)
    ensures
        signature_algorithm_der().len() == 12,
        name_der().len() == 20,
        validity_der(not_before, not_after).len() == 32,
        oid_der(ec_public_key_arcs()).len() == 9,
        oid_der(prime256v1_arcs()).len() == 10,
        oid_der(netscape_comment_arcs()).len() == 11,
{
    reveal_with_fuel(crate::der::oid_arcs, 8);
    reveal_with_fuel(crate::der::base128_high, 4);
    assert(oid_content(ecdsa_with_sha256_arcs()).len() == 8);
    assert(oid_content(common_name_arcs()).len() == 3);
    assert(oid_content(ec_public_key_arcs()).len() == 7);
    assert(oid_content(prime256v1_arcs()).len() == 8);
    assert(oid_content(netscape_comment_arcs()).len() == 9);
    assert(utc_time_content(not_before).len() == 13);
    assert(utc_time_content(not_after).len() == 13);
}

/// A certificate issued for a payload and key octets of fewer than 2^16
/// octets each is at least 166 and at most 260 octets longer than the
/// two together.
pub proof fn law_certificate_length(payload: Seq<u8>, key: Seq<u8>, pk: Seq<u8>, cert: Seq<u8>)
    requires
        ecc_certificate_issued(payload, key, pk, cert),
        payload.len() < 0x1_0000,
        key.len() < 0x1_0000,
    ensures
        payload.len() + key.len() + 166 <= cert.len() <= payload.len() + key.len() + 260,
{
    let now = choose|now: u64| #[trigger] ecc_certificate_made_at(payload, key, now, pk, cert);
    let (nb, na, sig) = choose|nb: UtcDateTime, na: UtcDateTime, sig: Seq<u8>|
        #[trigger] ecc_certificate_signed(payload, key, now, nb, na, pk, sig, cert);
    lemma_fixed_part_lengths(nb, na);
    let p = payload.len();
    let k = key.len();
    // the extension block
    let value = tlv(0x04, payload);
    let inner = oid_der(netscape_comment_arcs()) + value;
    let ext = tlv(0x30, inner);
    let exts = tlv(0x30, ext);
    lemma_der_length_bounds(p);
    lemma_der_length_bounds(inner.len());
    lemma_der_length_bounds(ext.len());
    lemma_der_length_bounds(exts.len());
    assert(p + 19 <= extensions_der(payload).len() <= p + 30);
    // the public key
    let bits = seq![0u8] + key;
    let alg = tlv(0x30, oid_der(ec_public_key_arcs()) + oid_der(prime256v1_arcs()));
    let info = alg + bit_string_der(key);
    lemma_der_length_bounds(bits.len());
    lemma_der_length_bounds(19);
    lemma_der_length_bounds(info.len());
    assert(k + 26 <= public_key_info_der(key).len() <= k + 32);
    // the to-be-signed part
    lemma_der_length_bounds(1);
    lemma_der_length_bounds(3);
    let body = tlv(0xa0, tlv(0x02, seq![2u8])) + tlv(0x02, seq![1u8]) + signature_algorithm_der()
        + name_der() + validity_der(nb, na) + name_der() + public_key_info_der(key)
        + extensions_der(payload);
    assert(p + k + 137 <= body.len() <= p + k + 154);
    let tbs = tbs_certificate_der(payload, key, nb, na);
    lemma_der_length_bounds(body.len());
    assert(p + k + 139 <= tbs.len() <= p + k + 159);
    // the signature
    let a = uint_content(sig.take(32).reverse());
    let b = uint_content(sig.skip(32).reverse());
    lemma_uint_content_len(sig.take(32).reverse());
    lemma_uint_content_len(sig.skip(32).reverse());
    lemma_der_length_bounds(a.len());
    lemma_der_length_bounds(b.len());
    let pair = tlv(0x02, a) + tlv(0x02, b);
    lemma_der_length_bounds(pair.len());
    let value_der = signature_value_der(sig);
    lemma_der_length_bounds(value_der.len() + 1);
    assert(11 <= bit_string_der(value_der).len() <= 83);
    // the whole
    let content = tbs + signature_algorithm_der() + bit_string_der(value_der);
    lemma_der_length_bounds(content.len());
    assert(cert == tlv(0x30, content));
}

/// The self-signed certificate for the P-256 key `prv_k`, whose
/// public-key field holds the octets `key_pair`, carrying `payload` in its
/// Netscape-comment extension, issued `now` seconds after the UNIX epoch
/// and valid for `CERTEXPIRYDAYS` days. The error of `validity_period`
/// when the period cannot be written; else the signer is given the
/// encoded to-be-signed part followed by the encoded signature algorithm,
/// and the certificate's signature is what it returned under `prv_k`.
pub fn gen_ecc_cert_at(payload: &[u8], prv_k: &P256KeyPair, key_pair: &[u8], now: u64) -> (r: Result<
    Vec<u8>,
    CertError,
>)
    ensures
        match validity_period(now) {
            Err(e) => r == Err::<Vec<u8>, CertError>(e),
            Ok(_) => r matches Err(e) ==> (e == CertError::SigningFailed || e == CertError::ShortSignature),
        },
        r matches Ok(cert) ==> ecc_certificate_made_at(payload@, key_pair@, now, prv_k.public_key_octets(), cert@),
{
    let (not_before, not_after) = match validity_period_at(now) {
        Ok(p) => p,
        Err(e) => return Err(e),
    };
    let tbs = tbs_certificate(payload, key_pair, &not_before, &not_after);
    let to_sign = signing_input_of(tbs.as_slice());
    let signed = ecdsa_sign(prv_k, to_sign.as_slice());
    let ghost signed_view = signed;
    let cert = certificate_from_signer(tbs.as_slice(), signed);
    proof {
        if cert is Ok {
            lemma_certificate_made_at(
                payload@,
                key_pair@,
                now,
                not_before,
                not_after,
                prv_k.public_key_octets(),
                signed_view->Some_0@,
                cert->Ok_0@,
            );
        }
    }
    cert
}

/// As `gen_ecc_cert`, with the clock's reading given: `clock_secs` is the
/// whole seconds since the UNIX epoch, `None` when the clock reads before
/// it. The answer is `gen_ecc_cert_at` at exactly that second, with the
/// error as its message, and `ClockBeforeEpoch`'s message for `None`.
pub fn gen_ecc_cert_with_clock(
    payload: String,
    prv_k: P256KeyPair,
    key_pair: Vec<u8>,
    clock_secs: Option<u64>,
) -> (r: Result<Vec<u8>, String>)
    ensures
        clock_secs is None ==> (r matches Err(m) && m@ == CertError::ClockBeforeEpoch.message_text()),
        clock_secs matches Some(now) ==> match validity_period(now) {
            Err(e) => r matches Err(m) && m@ == e.message_text(),
            Ok(_) => r matches Err(m) ==> (m@ == CertError::SigningFailed.message_text()
                || m@ == CertError::ShortSignature.message_text()),
        },
        r matches Ok(cert) ==> (clock_secs matches Some(now) && ecc_certificate_made_at(
            encode_utf8(payload@),
            key_pair@,
            now,
            prv_k.public_key_octets(),
            cert@,
        )),
{
    let now = match clock_secs {
        Some(secs) => secs,
        None => return Err(CertError::ClockBeforeEpoch.message()),
    };
    match gen_ecc_cert_at(payload.as_str().as_bytes(), &prv_k, key_pair.as_slice(), now) {
        Ok(cert) => Ok(cert),
        Err(e) => Err(e.message()),
    }
}

/// A self-signed certificate for the P-256 key `prv_k`, whose public-key
/// field holds the octets `key_pair`, carrying `payload` in its
/// Netscape-comment extension, valid for `CERTEXPIRYDAYS` days from the
/// current time: `gen_ecc_cert_with_clock` with the clock's reading in
/// whole seconds. Which reading that was is not stated: the clock has no
/// model here.
pub fn gen_ecc_cert(payload: String, prv_k: P256KeyPair, key_pair: Vec<u8>) -> (r: Result<
    Vec<u8>,
    String,
>)
    ensures
        r matches Ok(cert) ==> ecc_certificate_issued(
            encode_utf8(payload@),
            key_pair@,
            prv_k.public_key_octets(),
            cert@,
        ),
        r matches Err(msg) ==> exists|e: CertError| msg@ == e.message_text(),
{
    let ghost pk = prv_k.public_key_octets();
    let ghost text = encode_utf8(payload@);
    let ghost key = key_pair@;
    let r = gen_ecc_cert_with_clock(payload, prv_k, key_pair, seconds_since_unix_epoch(system_time_now()));
    proof {
        if r is Ok {
            let now = choose|now: u64| ecc_certificate_made_at(text, key, now, pk, r->Ok_0@);
            lemma_certificate_issued(text, key, now, pk, r->Ok_0@);
        }
    }
    r
}

/// A fresh P-256 key pair with its PKCS#8 document, or `None` when the
/// random source or ring's parsing of the new document fails. The
/// document is one ring accepts as a P-256 key pair, and the key pair's
/// public key is the one ring reads from that document.
pub fn ring_key_gen_pcks_8() -> (r: Option<(P256KeyPair, Vec<u8>)>)
    ensures
        r matches Some((k, doc)) ==> ring_p256_pkcs8_accepted(doc@)
            && k.public_key_octets() == p256_pkcs8_public_key(doc@),
{
    let doc = match generate_p256_pkcs8() {
        Some(d) => d,
        None => return None,
    };
    match p256_key_pair_from_pkcs8(doc.as_slice()) {
        Some(key) => Some((key, doc)),
        None => None,
    }
}

} // verus!
