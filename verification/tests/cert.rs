use bit_vec::BitVec;
use chrono::{TimeZone, Utc};
use num_bigint::BigUint;
use yasna::models::{ObjectIdentifier, UTCTime};

use nitro_ra::cert::{
    assemble_certificate, certificate_from_signature, encode_signature_algorithm, encode_utc_time, signing_input_of,
    tbs_certificate, validity_period_at, CertError, UtcDateTime,
};
use nitro_ra::{gen_ecc_cert, gen_ecc_cert_at, ring_key_gen_pcks_8, CERTEXPIRYDAYS};
use ring::signature::{EcdsaKeyPair, KeyPair, ECDSA_P256_SHA256_ASN1_SIGNING};

fn yasna_tbs(payload: &[u8], key: &[u8], issue: i64, expire: i64) -> Vec<u8> {
    yasna::construct_der(|writer| {
        writer.write_sequence(|writer| {
            writer.next().write_tagged(yasna::Tag::context(0), |writer| writer.write_i8(2));
            writer.next().write_u8(1);
            writer.next().write_sequence(|writer| {
                writer.next().write_oid(&ObjectIdentifier::from_slice(&[1, 2, 840, 10045, 4, 3, 2]));
            });
            let name = |writer: yasna::DERWriter| {
                writer.write_sequence(|writer| {
                    writer.next().write_set(|writer| {
                        writer.next().write_sequence(|writer| {
                            writer.next().write_oid(&ObjectIdentifier::from_slice(&[2, 5, 4, 3]));
                            writer.next().write_utf8_string("MesaTEE");
                        });
                    });
                })
            };
            name(writer.next());
            writer.next().write_sequence(|writer| {
                writer.next().write_utctime(&UTCTime::from_datetime(&Utc.timestamp_opt(issue, 0).unwrap()));
                writer.next().write_utctime(&UTCTime::from_datetime(&Utc.timestamp_opt(expire, 0).unwrap()));
            });
            name(writer.next());
            writer.next().write_sequence(|writer| {
                writer.next().write_sequence(|writer| {
                    writer.next().write_oid(&ObjectIdentifier::from_slice(&[1, 2, 840, 10045, 2, 1]));
                    writer.next().write_oid(&ObjectIdentifier::from_slice(&[1, 2, 840, 10045, 3, 1, 7]));
                });
                writer.next().write_bitvec(&BitVec::from_bytes(key));
            });
            writer.next().write_tagged(yasna::Tag::context(3), |writer| {
                writer.write_sequence(|writer| {
                    writer.next().write_sequence(|writer| {
                        writer.next().write_oid(&ObjectIdentifier::from_slice(&[2, 16, 840, 1, 113730, 1, 13]));
                        writer.next().write_bytes(payload);
                    });
                });
            });
        })
    })
}

fn yasna_signature_value(sig: &[u8]) -> Vec<u8> {
    yasna::construct_der(|writer| {
        writer.write_sequence(|writer| {
            let mut x = sig[..32].to_vec();
            x.reverse();
            let mut y = sig[32..].to_vec();
            y.reverse();
            writer.next().write_biguint(&BigUint::from_bytes_be(&x));
            writer.next().write_biguint(&BigUint::from_bytes_be(&y));
        })
    })
}

const NOW: u64 = 1_600_000_000;

#[test]
fn validity_at_epoch() {
    let (a, b) = validity_period_at(0).unwrap();
    assert_eq!(a, UtcDateTime { year: 1970, month: 1, day: 1, hour: 0, minute: 0, second: 0 });
    assert_eq!(b, UtcDateTime { year: 1970, month: 4, day: 1, hour: 0, minute: 0, second: 0 });
}

#[test]
fn validity_spans_ninety_days() {
    let (a, b) = validity_period_at(NOW).unwrap();
    assert_eq!(a, UtcDateTime { year: 2020, month: 9, day: 13, hour: 12, minute: 26, second: 40 });
    assert_eq!(b, UtcDateTime { year: 2020, month: 12, day: 12, hour: 12, minute: 26, second: 40 });
    assert_eq!(CERTEXPIRYDAYS, 90);
}

#[test]
fn validity_errors() {
    // 2050-01-01T00:00:00Z cannot be written as UTCTime.
    assert_eq!(validity_period_at(2_524_608_000), Err(CertError::YearNotRepresentable));
    // 2049-12-01: issue fits, expiry falls in 2050.
    assert_eq!(validity_period_at(2_522_016_000), Err(CertError::YearNotRepresentable));
    // Adding the validity overflows the clock value.
    assert_eq!(validity_period_at(u64::MAX), Err(CertError::TimeOutOfRange));
    // Far beyond what the calendar library holds.
    assert_eq!(validity_period_at(i64::MAX as u64 - 1), Err(CertError::TimeOutOfRange));
}

#[test]
fn error_messages() {
    assert_eq!(CertError::ShortSignature.message(), "signature is shorter than 32 bytes");
    assert_eq!(CertError::ClockBeforeEpoch.message(), "system clock is before the UNIX epoch");
}

#[test]
fn utc_time_encoding() {
    let t = UtcDateTime { year: 1982, month: 1, day: 2, hour: 12, minute: 0, second: 7 };
    let mut expected = vec![0x17, 13];
    expected.extend_from_slice(b"820102120007Z");
    assert_eq!(encode_utc_time(&t), expected);
}

#[test]
fn tbs_matches_yasna() {
    let (a, b) = validity_period_at(NOW).unwrap();
    let payload = b"attestation payload".to_vec();
    let key: Vec<u8> = (0u8..121).collect();
    let ours = tbs_certificate(&payload, &key, &a, &b);
    let theirs = yasna_tbs(&payload, &key, NOW as i64, NOW as i64 + 90 * 86400);
    assert_eq!(ours, theirs);
}

#[test]
fn tbs_with_long_payload_matches_yasna() {
    let (a, b) = validity_period_at(NOW).unwrap();
    let payload = vec![0xabu8; 70000];
    let key = vec![4u8; 65];
    assert_eq!(
        tbs_certificate(&payload, &key, &a, &b),
        yasna_tbs(&payload, &key, NOW as i64, NOW as i64 + 90 * 86400)
    );
}

#[test]
fn signing_input_is_tbs_then_algorithm() {
    let tbs = vec![0x30, 0x00];
    let input = signing_input_of(&tbs);
    let alg = encode_signature_algorithm();
    assert_eq!(alg, vec![0x30, 0x0a, 0x06, 0x08, 0x2a, 0x86, 0x48, 0xce, 0x3d, 0x04, 0x03, 0x02]);
    let mut expected = tbs.clone();
    expected.extend_from_slice(&alg);
    assert_eq!(input, expected);
}

#[test]
fn certificate_matches_yasna() {
    let (a, b) = validity_period_at(NOW).unwrap();
    let payload = b"p".to_vec();
    let key = vec![1u8, 2, 3];
    let tbs = tbs_certificate(&payload, &key, &a, &b);
    let sig: Vec<u8> = (0u8..71).map(|i| i.wrapping_mul(37)).collect();
    let ours = assemble_certificate(&tbs, &sig);
    let value = yasna_signature_value(&sig);
    let theirs = yasna::construct_der(|writer| {
        writer.write_sequence(|writer| {
            writer.next().write_der(&tbs);
            writer.next().write_sequence(|writer| {
                writer.next().write_oid(&ObjectIdentifier::from_slice(&[1, 2, 840, 10045, 4, 3, 2]));
            });
            writer.next().write_bitvec(&BitVec::from_bytes(&value));
        })
    });
    assert_eq!(ours, theirs);
}

#[test]
fn signature_halves_with_leading_zeros() {
    let (a, b) = validity_period_at(NOW).unwrap();
    let tbs = tbs_certificate(b"", b"", &a, &b);
    let mut sig = vec![0u8; 64];
    sig[0] = 0x90; // becomes the last octet of the reversed first half
    sig[32] = 0x01; // becomes the last octet of the reversed second half
    let cert = assemble_certificate(&tbs, &sig);
    let tail = &cert[cert.len() - 12..];
    // BIT STRING { 0 unused, SEQUENCE { INTEGER 0x0090, INTEGER 0x01 } }
    assert_eq!(tail, &[0x03, 0x0a, 0x00, 0x30, 0x07, 0x02, 0x02, 0x00, 0x90, 0x02, 0x01, 0x01]);
}

#[test]
fn generated_certificate_has_expected_shape() {
    let (key, doc) = ring_key_gen_pcks_8().expect("key generation");
    let payload = "enclave report".to_string();
    let cert = gen_ecc_cert(payload.clone(), key, doc.clone()).expect("certificate");
    assert_eq!(cert[0], 0x30);
    assert!(cert.windows(payload.len()).any(|w| w == payload.as_bytes()));
    assert!(cert.windows(doc.len()).any(|w| w == &doc[..]));
    let parsed = yasna::parse_der(&cert, |reader| {
        reader.read_sequence(|reader| {
            let tbs = reader.next().read_der()?;
            let _alg = reader.next().read_der()?;
            let _sig = reader.next().read_bitvec()?;
            Ok(tbs)
        })
    });
    assert!(parsed.is_ok());
}

#[test]
fn extension_reads_back_the_payload() {
    let payload = b"{\"report\":\"abc\"}".to_vec();
    let ext = nitro_ra::cert::encode_extensions(&payload);
    let read = yasna::parse_der(&ext, |reader| {
        reader.read_tagged(yasna::Tag::context(3), |reader| {
            reader.read_sequence(|reader| {
                reader.next().read_sequence(|reader| {
                    let oid = reader.next().read_oid()?;
                    let value = reader.next().read_bytes()?;
                    Ok((oid, value))
                })
            })
        })
    })
    .unwrap();
    assert_eq!(read.0, ObjectIdentifier::from_slice(&[2, 16, 840, 1, 113730, 1, 13]));
    assert_eq!(read.1, payload);
}

#[test]
fn short_signature_is_refused() {
    let (a, b) = validity_period_at(NOW).unwrap();
    let tbs = tbs_certificate(b"x", b"k", &a, &b);
    assert_eq!(certificate_from_signature(&tbs, &[7u8; 31]), Err(CertError::ShortSignature));
    assert_eq!(certificate_from_signature(&tbs, &[]), Err(CertError::ShortSignature));
}

#[test]
fn signature_of_full_length_is_assembled() {
    let (a, b) = validity_period_at(NOW).unwrap();
    let tbs = tbs_certificate(b"x", b"k", &a, &b);
    let sig: Vec<u8> = (0u8..70).collect();
    assert_eq!(certificate_from_signature(&tbs, &sig), Ok(assemble_certificate(&tbs, &sig)));
    let exact: Vec<u8> = vec![0x42; 32];
    assert_eq!(certificate_from_signature(&tbs, &exact), Ok(assemble_certificate(&tbs, &exact)));
}

#[test]
fn generated_certificate_length_is_bounded() {
    let (key, doc) = ring_key_gen_pcks_8().expect("key generation");
    let payload = "x".repeat(300);
    let cert = gen_ecc_cert(payload.clone(), key, doc.clone()).expect("certificate");
    let base = payload.len() + doc.len();
    assert!(base + 166 <= cert.len());
    assert!(cert.len() <= base + 260);
}

fn content_start(der: &[u8]) -> usize {
    if der[1] < 128 {
        2
    } else {
        2 + (der[1] & 0x7f) as usize
    }
}

#[test]
fn certificate_at_unwritable_time_is_refused() {
    let (key, doc) = ring_key_gen_pcks_8().expect("key generation");
    assert_eq!(gen_ecc_cert_at(b"p", &key, &doc, 2_524_608_000), Err(CertError::YearNotRepresentable));
    assert_eq!(gen_ecc_cert_at(b"p", &key, &doc, u64::MAX), Err(CertError::TimeOutOfRange));
}

#[test]
fn same_second_certificates_share_tbs() {
    let (k1, d1) = ring_key_gen_pcks_8().expect("key generation");
    let (k2, _) = ring_key_gen_pcks_8().expect("key generation");
    let payload = b"same second".to_vec();
    let c1 = gen_ecc_cert_at(&payload, &k1, &d1, NOW).unwrap();
    let c2 = gen_ecc_cert_at(&payload, &k2, &d1, NOW).unwrap();
    let (a, b) = validity_period_at(NOW).unwrap();
    let tbs = tbs_certificate(&payload, &d1, &a, &b);
    let alg = encode_signature_algorithm();
    for c in [&c1, &c2] {
        let start = content_start(c);
        assert_eq!(&c[start..start + tbs.len()], &tbs[..]);
        assert_eq!(&c[start + tbs.len()..start + tbs.len() + alg.len()], &alg[..]);
    }
}

#[test]
fn key_pair_matches_its_document() {
    let (key, doc) = ring_key_gen_pcks_8().expect("key generation");
    let parsed =
        EcdsaKeyPair::from_pkcs8(&ECDSA_P256_SHA256_ASN1_SIGNING, &doc).expect("document parses");
    assert_eq!(key.public_key(), parsed.public_key().as_ref());
    assert_eq!(key.public_key().len(), 65);
    assert_eq!(key.public_key()[0], 0x04);
}
