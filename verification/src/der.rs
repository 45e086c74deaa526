//! Distinguished Encoding Rules: the octets of tag-length-value triples
//! and of the primitive values the certificate writer emits.

use vstd::prelude::*;

verus! {

/// Big-endian octets of `n` with no leading zero octet (empty for 0).
pub open spec fn be_bytes(n: nat) -> Seq<u8>
    decreases n,
{
    if n == 0 {
        Seq::empty()
    } else {
        be_bytes(n / 256) + seq![(n % 256) as u8]
    }
}

/// The DER length octets of a content of `n` octets: the short form
/// below 128, else `0x80 | k` followed by the `k` big-endian octets of `n`.
pub open spec fn der_length(n: nat) -> Seq<u8> {
    if n < 128 {
        seq![n as u8]
    } else {
        seq![(128 + be_bytes(n).len()) as u8] + be_bytes(n)
    }
}

/// A tag-length-value triple with a one-octet identifier.
pub open spec fn tlv(tag: u8, content: Seq<u8>) -> Seq<u8> {
    seq![tag] + der_length(content.len()) + content
}

pub open spec fn pow256(k: nat) -> nat
    decreases k,
{
    if k == 0 {
        1
    } else {
        256 * pow256((k - 1) as nat)
    }
}

proof fn lemma_be_bytes_len_bound(n: nat, k: nat)
    requires
        n < pow256(k),
    ensures
        be_bytes(n).len() <= k,
    decreases k,
{
    if n > 0 {
        assert(k > 0);
        let p = pow256((k - 1) as nat);
        assert(n / 256 < p) by (nonlinear_arith)
            requires
                n < 256 * p,
        ;
        lemma_be_bytes_len_bound(n / 256, (k - 1) as nat);
    }
}

proof fn lemma_be_bytes_usize(n: usize)
    ensures
        be_bytes(n as nat).len() <= 8,
{
    reveal_with_fuel(pow256, 9);
    assert(pow256(8) == 0x1_0000_0000_0000_0000nat);
    lemma_be_bytes_len_bound(n as nat, 8);
}

/// The DER length octets of `n`.
pub fn encode_length(n: usize) -> (out: Vec<u8>)
    ensures
        out@ == der_length(n as nat),
{
    let mut out: Vec<u8> = Vec::new();
    if n < 128 {
        out.push(n as u8);
        return out;
    }
    let mut bytes: Vec<u8> = Vec::new();
    let mut m: usize = n;
    while m > 0
        invariant
            m <= n,
            be_bytes(n as nat) == be_bytes(m as nat) + bytes@,
        decreases m,
    {
        let b: u8 = (m % 256) as u8;
        let ghost prev = bytes@;
        bytes.insert(0, b);
        assert(be_bytes(m as nat) == be_bytes((m / 256) as nat) + seq![b]);
        assert(bytes@ == seq![b] + prev);
        assert(be_bytes(n as nat) == be_bytes((m / 256) as nat) + bytes@);
        m = m / 256;
    }
    proof {
        lemma_be_bytes_usize(n);
    }
    out.push((128 + bytes.len()) as u8);
    out.append(&mut bytes);
    out
}


/// The octets `tag`, the DER length of `content`, then `content`.
pub fn encode_tlv(tag: u8, content: &[u8]) -> (out: Vec<u8>)
    ensures
        out@ == tlv(tag, content@),
{
    let mut out: Vec<u8> = Vec::new();
    out.push(tag);
    let mut len = encode_length(content.len());
    out.append(&mut len);
    let mut body = vstd::slice::slice_to_vec(content);
    out.append(&mut body);
    out
}

/// Base-128 digits of `v` with the continuation bit set on each
/// (empty for 0): the leading groups of an OBJECT IDENTIFIER arc.
pub open spec fn base128_high(v: nat) -> Seq<u8>
    decreases v,
{
    if v == 0 {
        Seq::empty()
    } else {
        base128_high(v / 128) + seq![(v % 128 + 128) as u8]
    }
}

/// One OBJECT IDENTIFIER arc: base-128 big-endian, continuation bit on
/// every octet but the last, and a single `0` octet for zero.
pub open spec fn oid_arc(v: nat) -> Seq<u8> {
    base128_high(v / 128) + seq![(v % 128) as u8]
}

/// The concatenated encodings of the arcs of `arcs`.
pub open spec fn oid_arcs(arcs: Seq<u64>) -> Seq<u8>
    decreases arcs.len(),
{
    if arcs.len() == 0 {
        Seq::empty()
    } else {
        oid_arc(arcs[0] as nat) + oid_arcs(arcs.drop_first())
    }
}

/// The arcs admit a canonical encoding: at least two, the first below 3,
/// the second below 40 unless the first is 2, and `40 * first + second`
/// within 64 bits.
pub open spec fn valid_oid(arcs: Seq<u64>) -> bool {
    &&& arcs.len() >= 2
    &&& arcs[0] < 3
    &&& (arcs[0] >= 2 || arcs[1] < 40)
    &&& arcs[1] < 18446744073709551535
}

/// Content octets of an OBJECT IDENTIFIER: the first two arcs merged as
/// `40 * first + second`, then every further arc.
pub open spec fn oid_content(arcs: Seq<u64>) -> Seq<u8> {
    oid_arc((arcs[0] * 40 + arcs[1]) as nat) + oid_arcs(arcs.skip(2))
}

/// The encoding of one arc.
pub fn encode_oid_arc(v: u64) -> (out: Vec<u8>)
    ensures
        out@ == oid_arc(v as nat),
{
    let mut out: Vec<u8> = Vec::new();
    out.push((v % 128) as u8);
    let mut m: u64 = v / 128;
    while m > 0
        invariant
            oid_arc(v as nat) == base128_high(m as nat) + out@,
        decreases m,
    {
        let b: u8 = (m % 128 + 128) as u8;
        let ghost prev = out@;
        out.insert(0, b);
        assert(base128_high(m as nat) == base128_high((m / 128) as nat) + seq![b]);
        assert(out@ == seq![b] + prev);
        m = m / 128;
    }
    out
}

/// Content octets of the OBJECT IDENTIFIER with the given arcs.
pub fn encode_oid_content(arcs: &[u64]) -> (out: Vec<u8>)
    requires
        valid_oid(arcs@),
    ensures
        out@ == oid_content(arcs@),
{
    let first: u64 = arcs[0] * 40 + arcs[1];
    let mut out = encode_oid_arc(first);
    let mut i: usize = 2;
    while i < arcs.len()
        invariant
            2 <= i <= arcs@.len(),
            oid_content(arcs@) == out@ + oid_arcs(arcs@.skip(i as int)),
        decreases arcs@.len() - i,
    {
        let mut arc = encode_oid_arc(arcs[i]);
        assert(arcs@.skip(i as int).drop_first() == arcs@.skip(i + 1));
        let ghost prev = out@;
        out.append(&mut arc);
        assert(out@ + oid_arcs(arcs@.skip(i + 1)) == prev + oid_arcs(arcs@.skip(i as int)));
        i = i + 1;
    }
    assert(arcs@.skip(i as int) == Seq::<u64>::empty());
    out
}

/// `s` with its leading zero octets removed.
pub open spec fn strip_leading_zeros(s: Seq<u8>) -> Seq<u8>
    decreases s.len(),
{
    if s.len() > 0 && s[0] == 0 {
        strip_leading_zeros(s.drop_first())
    } else {
        s
    }
}

/// Content octets of the INTEGER whose unsigned big-endian magnitude is
/// `magnitude`: no redundant leading zero, a `0` octet in front when the
/// top bit would otherwise read as a sign, and a single `0` for zero.
pub open spec fn uint_content(magnitude: Seq<u8>) -> Seq<u8> {
    let t = strip_leading_zeros(magnitude);
    if t.len() == 0 {
        seq![0u8]
    } else if t[0] >= 128 {
        seq![0u8] + t
    } else {
        t
    }
}

/// Content octets of the unsigned INTEGER with the given magnitude.
pub fn encode_uint_content(magnitude: &[u8]) -> (out: Vec<u8>)
    ensures
        out@ == uint_content(magnitude@),
{
    let mut i: usize = 0;
    assert(magnitude@.skip(0) == magnitude@);
    while i < magnitude.len() && magnitude[i] == 0
        invariant
            i <= magnitude@.len(),
            strip_leading_zeros(magnitude@) == strip_leading_zeros(magnitude@.skip(i as int)),
        decreases magnitude@.len() - i,
    {
        assert(magnitude@.skip(i as int).drop_first() == magnitude@.skip(i + 1));
        i = i + 1;
    }
    let rest = vstd::slice::slice_subrange(magnitude, i, magnitude.len());
    assert(rest@ == magnitude@.skip(i as int));
    let mut out: Vec<u8> = Vec::new();
    if rest.len() == 0 {
        out.push(0);
    } else {
        if rest[0] >= 128 {
            out.push(0);
        }
        let mut body = vstd::slice::slice_to_vec(rest);
        out.append(&mut body);
    }
    out
}


// ----- Reading back what is written -----

/// The number whose big-endian octets are `s`.
pub open spec fn be_value(s: Seq<u8>) -> nat
    decreases s.len(),
{
    if s.len() == 0 {
        0
    } else {
        be_value(s.drop_last()) * 256 + s.last() as nat
    }
}

/// The length a DER reader takes from the front of `s`, with the number
/// of length octets it consumed.
pub open spec fn decode_length(s: Seq<u8>) -> Option<(nat, nat)> {
    if s.len() == 0 {
        None
    } else if s[0] < 128 {
        Some((s[0] as nat, 1nat))
    } else {
        let k = (s[0] - 128) as nat;
        if k == 0 || 1 + k > s.len() {
            None
        } else {
            Some((be_value(s.subrange(1, 1 + k as int)), 1 + k))
        }
    }
}

/// The tag, content and total size of the triple at the front of `s`.
pub open spec fn decode_tlv(s: Seq<u8>) -> Option<(u8, Seq<u8>, nat)> {
    if s.len() == 0 {
        None
    } else {
        match decode_length(s.drop_first()) {
            Some((len, k)) => if 1 + k + len <= s.len() {
                Some((s[0], s.subrange(1 + k as int, 1 + k + len as int), 1 + k + len))
            } else {
                None
            },
            None => None,
        }
    }
}

/// The number whose base-128 digits are the low seven bits of each octet.
pub open spec fn base128_value(s: Seq<u8>) -> nat
    decreases s.len(),
{
    if s.len() == 0 {
        0
    } else {
        base128_value(s.drop_last()) * 128 + (s.last() % 128) as nat
    }
}

proof fn lemma_be_value_be_bytes(n: nat)
    ensures
        be_value(be_bytes(n)) == n,
        n > 0 ==> be_bytes(n)[0] != 0,
    decreases n,
{
    if n > 0 {
        let s = be_bytes(n);
        lemma_be_value_be_bytes(n / 256);
        assert(s.drop_last() == be_bytes(n / 256));
        assert(n == (n / 256) * 256 + n % 256);
        if n / 256 == 0 {
            assert(s[0] == (n % 256) as u8);
        } else {
            assert(s[0] == be_bytes(n / 256)[0]);
        }
    }
}

proof fn lemma_be_value_zero_prefix(t: Seq<u8>)
    ensures
        be_value(seq![0u8] + t) == be_value(t),
    decreases t.len(),
{
    if t.len() > 0 {
        lemma_be_value_zero_prefix(t.drop_last());
        assert((seq![0u8] + t).drop_last() == seq![0u8] + t.drop_last());
    } else {
        assert((seq![0u8] + t).drop_last() == t);
    }
}

proof fn lemma_strip_leading_zeros(s: Seq<u8>)
    ensures
        be_value(strip_leading_zeros(s)) == be_value(s),
        strip_leading_zeros(s).len() > 0 ==> strip_leading_zeros(s)[0] != 0,
    decreases s.len(),
{
    if s.len() > 0 && s[0] == 0 {
        lemma_strip_leading_zeros(s.drop_first());
        assert(s == seq![0u8] + s.drop_first());
        lemma_be_value_zero_prefix(s.drop_first());
    }
}

proof fn lemma_base128_high(m: nat)
    ensures
        base128_value(base128_high(m)) == m,
        forall|i: int| 0 <= i < base128_high(m).len() ==> base128_high(m)[i] >= 128,
    decreases m,
{
    if m > 0 {
        let s = base128_high(m);
        lemma_base128_high(m / 128);
        assert(s.drop_last() == base128_high(m / 128));
        assert(((m % 128 + 128) as u8) % 128 == m % 128);
        assert(m == (m / 128) * 128 + m % 128);
    }
}

/// The length octets of a content that fits in memory take at most nine
/// octets.
pub proof fn lemma_der_length_len(n: usize)
    ensures
        der_length(n as nat).len() <= 9,
{
    lemma_be_bytes_usize(n);
}

/// How many length octets a content of `n` octets takes: one below 128,
/// at least two from 128 on, at most three below 2^16 and at most four
/// below 2^24.
pub proof fn lemma_der_length_bounds(n: nat)
    ensures
        der_length(n).len() >= 1,
        n < 128 ==> der_length(n).len() == 1,
        n >= 128 ==> der_length(n).len() >= 2,
        n < 0x1_0000 ==> der_length(n).len() <= 3,
        n < 0x100_0000 ==> der_length(n).len() <= 4,
{
    if n >= 128 {
        assert(be_bytes(n).len() >= 1);
        reveal_with_fuel(pow256, 4);
        if n < 0x1_0000 {
            lemma_be_bytes_len_bound(n, 2);
        }
        if n < 0x100_0000 {
            lemma_be_bytes_len_bound(n, 3);
        }
    }
}

proof fn lemma_strip_leading_zeros_len(s: Seq<u8>)
    ensures
        strip_leading_zeros(s).len() <= s.len(),
    decreases s.len(),
{
    if s.len() > 0 && s[0] == 0 {
        lemma_strip_leading_zeros_len(s.drop_first());
    }
}

/// The content of an unsigned INTEGER takes at least one octet and at
/// most one more than its magnitude.
pub proof fn lemma_uint_content_len(magnitude: Seq<u8>)
    ensures
        1 <= uint_content(magnitude).len() <= magnitude.len() + 1,
{
    lemma_strip_leading_zeros_len(magnitude);
}

/// A DER reader takes back the length that was written, and the length
/// octets say how many of them there are.
pub proof fn law_length_round_trip(n: usize, rest: Seq<u8>)
    ensures
        decode_length(der_length(n as nat) + rest) == Some((n as nat, der_length(n as nat).len())),
{
    let s = der_length(n as nat) + rest;
    if n >= 128 {
        lemma_be_bytes_usize(n);
        lemma_be_value_be_bytes(n as nat);
        let k = be_bytes(n as nat).len();
        assert(k > 0);
        assert(s.subrange(1, 1 + k as int) == be_bytes(n as nat));
    }
}

/// Reading a written tag-length-value triple gives back its tag and its
/// content, and consumes exactly the triple.
pub proof fn law_tlv_round_trip(tag: u8, content: Seq<u8>, rest: Seq<u8>)
    requires
        content.len() <= usize::MAX,
    ensures
        decode_tlv(tlv(tag, content) + rest) == Some((tag, content, tlv(tag, content).len())),
{
    let n = content.len() as usize;
    let s = tlv(tag, content) + rest;
    law_length_round_trip(n, content + rest);
    assert(s.drop_first() == der_length(n as nat) + (content + rest));
    let k = der_length(n as nat).len();
    assert(s.subrange(1 + k as int, 1 + k + content.len() as int) == content);
}

/// An encoded arc reads back as its value, and only its last octet lacks
/// the continuation bit, so a reader knows where it ends.
pub proof fn law_oid_arc_round_trip(v: u64)
    ensures
        base128_value(oid_arc(v as nat)) == v,
        oid_arc(v as nat).last() < 128,
        forall|i: int| 0 <= i < oid_arc(v as nat).len() - 1 ==> oid_arc(v as nat)[i] >= 128,
{
    let s = oid_arc(v as nat);
    lemma_base128_high(v as nat / 128);
    assert(s.drop_last() == base128_high(v as nat / 128));
    assert(v == (v / 128) * 128 + v % 128);
}

/// The first octets of an OBJECT IDENTIFIER's content are the arc that
/// merges its first two arcs; it reads back as `40 * first + second`, and
/// a reader recovers both: the first is that value divided by 40 below
/// 80 and 2 from 80 on, the second what remains.
pub proof fn law_oid_first_arcs(arcs: Seq<u64>)
    requires
        valid_oid(arcs),
    ensures
        ({
            let v = arcs[0] * 40 + arcs[1];
            let first = if v < 80 { v / 40 } else { 2 };
            &&& oid_content(arcs) == oid_arc(v as nat) + oid_arcs(arcs.skip(2))
            &&& base128_value(oid_arc(v as nat)) == v
            &&& first == arcs[0]
            &&& v - 40 * first == arcs[1]
        }),
{
    let v = arcs[0] * 40 + arcs[1];
    assert(0 <= v <= u64::MAX);
    law_oid_arc_round_trip(v as u64);
}

/// The content of an unsigned INTEGER reads back as the magnitude it was
/// written from, reads as non-negative (top bit clear), and is minimal:
/// no leading `0` octet that the next octet does not need.
pub proof fn law_uint_content(magnitude: Seq<u8>)
    ensures
        be_value(uint_content(magnitude)) == be_value(magnitude),
        uint_content(magnitude).len() > 0,
        uint_content(magnitude)[0] < 128,
        uint_content(magnitude).len() > 1 && uint_content(magnitude)[0] == 0
            ==> uint_content(magnitude)[1] >= 128,
{
    let t = strip_leading_zeros(magnitude);
    lemma_strip_leading_zeros(magnitude);
    if t.len() == 0 {
        assert(be_value(seq![0u8]) == 0) by {
            reveal_with_fuel(be_value, 2);
            assert(seq![0u8].drop_last() == Seq::<u8>::empty());
        }
    } else if t[0] >= 128 {
        lemma_be_value_zero_prefix(t);
    }
}

} // verus!
