use nitro_ra::der::{encode_length, encode_oid_arc, encode_oid_content, encode_tlv, encode_uint_content};

#[test]
fn length_short_form() {
    assert_eq!(encode_length(0), vec![0]);
    assert_eq!(encode_length(5), vec![5]);
    assert_eq!(encode_length(127), vec![127]);
}

#[test]
fn length_long_form() {
    assert_eq!(encode_length(128), vec![0x81, 0x80]);
    assert_eq!(encode_length(255), vec![0x81, 0xff]);
    assert_eq!(encode_length(256), vec![0x82, 0x01, 0x00]);
    assert_eq!(encode_length(65535), vec![0x82, 0xff, 0xff]);
    assert_eq!(encode_length(65536), vec![0x83, 0x01, 0x00, 0x00]);
}

#[test]
fn length_matches_yasna() {
    for n in [0usize, 1, 100, 127, 128, 200, 255, 256, 1000, 65535, 65536, 70000] {
        let content = vec![7u8; n];
        let ours = encode_tlv(0x04, &content);
        let theirs = yasna::construct_der(|w| w.write_bytes(&content));
        assert_eq!(ours, theirs, "length {}", n);
    }
}

#[test]
fn tlv_of_empty_content() {
    assert_eq!(encode_tlv(0x30, &[]), vec![0x30, 0x00]);
    assert_eq!(encode_tlv(0x04, &[1, 2, 3]), vec![0x04, 0x03, 1, 2, 3]);
}

#[test]
fn oid_arcs() {
    assert_eq!(encode_oid_arc(0), vec![0]);
    assert_eq!(encode_oid_arc(127), vec![0x7f]);
    assert_eq!(encode_oid_arc(128), vec![0x81, 0x00]);
    assert_eq!(encode_oid_arc(840), vec![0x86, 0x48]);
    assert_eq!(encode_oid_arc(113730), vec![0x86, 0xf8, 0x42]);
}

#[test]
fn oid_contents() {
    assert_eq!(
        encode_oid_content(&[1, 2, 840, 10045, 4, 3, 2]),
        vec![0x2a, 0x86, 0x48, 0xce, 0x3d, 0x04, 0x03, 0x02]
    );
    assert_eq!(encode_oid_content(&[2, 5, 4, 3]), vec![0x55, 0x04, 0x03]);
    assert_eq!(
        encode_oid_content(&[2, 16, 840, 1, 113730, 1, 13]),
        vec![0x60, 0x86, 0x48, 0x01, 0x86, 0xf8, 0x42, 0x01, 0x0d]
    );
}

#[test]
fn oid_matches_yasna() {
    let cases: Vec<Vec<u64>> = vec![
        vec![1, 2, 840, 10045, 3, 1, 7],
        vec![2, 999, 0, 1, 127, 128, 16383, 16384, u64::MAX],
        vec![0, 39],
    ];
    for arcs in cases {
        let ours = encode_tlv(0x06, &encode_oid_content(&arcs));
        let oid = yasna::models::ObjectIdentifier::from_slice(&arcs);
        let theirs = yasna::construct_der(|w| w.write_oid(&oid));
        assert_eq!(ours, theirs, "{:?}", arcs);
    }
}

#[test]
fn unsigned_integer_contents() {
    assert_eq!(encode_uint_content(&[]), vec![0]);
    assert_eq!(encode_uint_content(&[0, 0, 0]), vec![0]);
    assert_eq!(encode_uint_content(&[0, 0, 200]), vec![0, 200]);
    assert_eq!(encode_uint_content(&[0x7f, 1]), vec![0x7f, 1]);
    assert_eq!(encode_uint_content(&[0x80]), vec![0, 0x80]);
}

#[test]
fn unsigned_integer_matches_yasna() {
    let cases: Vec<Vec<u8>> = vec![vec![], vec![0], vec![0, 0, 1], vec![0xff; 32], vec![0, 0x80, 3], vec![1, 2, 3]];
    for m in cases {
        let ours = encode_tlv(0x02, &encode_uint_content(&m));
        let big = num_bigint::BigUint::from_bytes_be(&m);
        let theirs = yasna::construct_der(|w| w.write_biguint(&big));
        assert_eq!(ours, theirs, "{:?}", m);
    }
}

#[test]
fn first_two_arcs_merge_and_split() {
    // 2.16: 80 + 16 = 96, read back as first arc 2 and second arc 16.
    assert_eq!(encode_oid_content(&[2, 16])[0], 96);
    // 1.39: 40 + 39 = 79, below 80, so the first arc is 79 / 40 = 1.
    assert_eq!(encode_oid_content(&[1, 39]), vec![79]);
    // 2.100: 180 takes two octets.
    assert_eq!(encode_oid_content(&[2, 100]), vec![0x81, 0x34]);
}
