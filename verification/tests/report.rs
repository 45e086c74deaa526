use nitro_ra::report::{strip_line_breaks, supported_sig_algs, try_verify_cert, ReportError, SigAlg};
use nitro_ra::{gen_ecc_cert, ring_key_gen_pcks_8};

fn generated_cert() -> Vec<u8> {
    let (key, doc) = ring_key_gen_pcks_8().expect("key generation");
    gen_ecc_cert("report signer".to_string(), key, doc).expect("certificate")
}

fn pem_of(der: &[u8]) -> Vec<u8> {
    let b64 = base64::encode(der);
    let mut pem = b"-----BEGIN CERTIFICATE-----\r\n".to_vec();
    for chunk in b64.as_bytes().chunks(64) {
        pem.extend_from_slice(chunk);
        pem.extend_from_slice(b"\r\n");
    }
    pem.extend_from_slice(b"-----END CERTIFICATE-----\r\n");
    pem
}

#[test]
fn strips_carriage_returns_and_line_feeds() {
    assert_eq!(strip_line_breaks(b"ab\r\ncd\n\re"), b"abcde".to_vec());
    assert_eq!(strip_line_breaks(b""), Vec::<u8>::new());
    assert_eq!(strip_line_breaks(b"\n\n\r"), Vec::<u8>::new());
    assert_eq!(strip_line_breaks(b"a b\t"), b"a b\t".to_vec());
    let once = strip_line_breaks(b"x\ny\rz");
    assert_eq!(strip_line_breaks(&once), once);
}

#[test]
fn supported_algorithms_in_order() {
    let algs = supported_sig_algs();
    assert_eq!(algs.len(), 11);
    assert_eq!(algs[0], SigAlg::EcdsaP256Sha256);
    assert_eq!(algs[7], SigAlg::RsaPkcs1_2048_8192Sha256);
    assert_eq!(algs[10], SigAlg::RsaPkcs1_3072_8192Sha384);
}

#[test]
fn bad_signature_encoding() {
    let r = try_verify_cert(b"@@@@".to_vec(), b"AAAA".to_vec(), b"report".to_vec(), b"");
    assert_eq!(r, Err(ReportError::SignatureNotBase64));
}

#[test]
fn bad_certificate_encoding() {
    let r = try_verify_cert(b"AAAA".to_vec(), b"@@@".to_vec(), b"report".to_vec(), b"");
    assert_eq!(r, Err(ReportError::CertificateNotBase64));
}

#[test]
fn certificate_not_der() {
    let cert = base64::encode(&[1u8, 2, 3]).into_bytes();
    let r = try_verify_cert(b"AAAA".to_vec(), cert, b"report".to_vec(), b"");
    assert_eq!(r, Err(ReportError::CertificateNotDer));
}

#[test]
fn mime_certificate_with_line_breaks_is_read() {
    let cert = pem_of(&generated_cert());
    // Strip the header and footer lines but keep the CRLF line breaks.
    let body: Vec<u8> = cert[29..cert.len() - 27].to_vec();
    let r = try_verify_cert(b"AAAA".to_vec(), body, b"report".to_vec(), b"too short");
    assert_eq!(r, Err(ReportError::RootPemTooShort));
}

#[test]
fn root_pem_too_short() {
    let cert = base64::encode(&generated_cert()).into_bytes();
    let ca = vec![b'A'; 51];
    let r = try_verify_cert(b"AAAA".to_vec(), cert, b"report".to_vec(), &ca);
    assert_eq!(r, Err(ReportError::RootPemTooShort));
}

#[test]
fn root_body_not_base64() {
    let cert = base64::encode(&generated_cert()).into_bytes();
    let ca = vec![b'*'; 60];
    let r = try_verify_cert(b"AAAA".to_vec(), cert, b"report".to_vec(), &ca);
    assert_eq!(r, Err(ReportError::RootNotBase64));
}

#[test]
fn root_pem_unreadable() {
    let cert = base64::encode(&generated_cert()).into_bytes();
    let ca = b"-----BEGIN CERTIFICATE-----\nAAAA AAAA\n-----END CERTIFICATE-----\n".to_vec();
    let r = try_verify_cert(b"AAAA".to_vec(), cert, b"report".to_vec(), &ca);
    assert_eq!(r, Err(ReportError::RootPemUnreadable));
}

#[test]
fn checked_report_gives_both_verdicts() {
    let der = generated_cert();
    let cert = base64::encode(&der).into_bytes();
    let ca = pem_of(&der);
    let r = try_verify_cert(b"AAAA".to_vec(), cert, b"report".to_vec(), &ca);
    match r {
        Ok(Some(v)) => {
            // A P-256 certificate cannot verify an RSA report signature.
            assert!(matches!(v.signature, Err(ref m) if !m.is_empty()));
            assert!(v.chain.is_err());
        }
        other => panic!("unexpected {:?}", other),
    }
}
