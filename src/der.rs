//! Re-encoding of fixed-width SEC1 ECDSA signatures as DER.
use vstd::prelude::*;

verus! {

/// Index of the first non-zero byte of `s` at or after `i` (`s.len()` if none).
pub open spec fn first_nonzero(s: Seq<u8>, i: int) -> int
    decreases s.len() - i,
{
    if 0 <= i < s.len() && s[i] == 0 {
        first_nonzero(s, i + 1)
    } else {
        i
    }
}

/// `s` without its leading zero bytes.
pub open spec fn strip_leading_zeros(s: Seq<u8>) -> Seq<u8> {
    s.subrange(first_nonzero(s, 0), s.len() as int)
}

/// A big-endian unsigned scalar is zero when it has no non-zero byte.
pub open spec fn is_zero_scalar(s: Seq<u8>) -> bool {
    strip_leading_zeros(s).len() == 0
}

/// The content octets of the DER INTEGER holding the unsigned value `s`:
/// minimal big-endian bytes, with a zero byte in front when the top bit is set.
pub open spec fn der_integer_body(s: Seq<u8>) -> Seq<u8> {
    let t = strip_leading_zeros(s);
    if t.len() > 0 && t[0] >= 0x80 {
        seq![0u8] + t
    } else {
        t
    }
}

/// A DER INTEGER: tag 0x02, length, content.
pub open spec fn der_integer(s: Seq<u8>) -> Seq<u8> {
    let b = der_integer_body(s);
    seq![0x02u8, b.len() as u8] + b
}

/// The DER SEQUENCE of the two INTEGERs `r` and `s`.
pub open spec fn der_signature(r: Seq<u8>, s: Seq<u8>) -> Seq<u8> {
    let body = der_integer(r) + der_integer(s);
    seq![0x30u8, body.len() as u8] + body
}

/// A 64-byte SEC1 signature `r ‖ s` with both scalars non-zero.
pub open spec fn valid_sec1(sec1: Seq<u8>) -> bool {
    &&& sec1.len() == 64
    &&& !is_zero_scalar(sec1.subrange(0, 32))
    &&& !is_zero_scalar(sec1.subrange(32, 64))
}

/// The DER encoding of a SEC1 signature `r ‖ s`.
pub open spec fn sec1_der(sec1: Seq<u8>) -> Seq<u8> {
    der_signature(sec1.subrange(0, 32), sec1.subrange(32, 64))
}

/// `t` left-padded with zero bytes to 32 bytes.
pub open spec fn pad32(t: Seq<u8>) -> Seq<u8> {
    Seq::new((32 - t.len()) as nat, |i: int| 0u8) + t
}

/// The 32-byte big-endian scalar held by the content octets of a DER INTEGER.
pub open spec fn der_integer_scalar(body: Seq<u8>) -> Seq<u8> {
    pad32(strip_leading_zeros(body))
}

/// Reads a DER signature `0x30 len 0x02 rlen r 0x02 slen s` back into the
/// 64-byte SEC1 form `r ‖ s`; `None` when the framing does not hold or a
/// scalar does not fit in 32 bytes.
pub open spec fn parse_der_signature(d: Seq<u8>) -> Option<Seq<u8>> {
    if d.len() >= 6 && d[0] == 0x30 && d[1] as int == d.len() - 2 && d[2] == 0x02 {
        let rl = d[3] as int;
        if 6 + rl <= d.len() && d[4 + rl] == 0x02 && 6 + rl + d[5 + rl] as int == d.len() {
            let r = strip_leading_zeros(d.subrange(4, 4 + rl));
            let s = strip_leading_zeros(d.subrange(6 + rl, d.len() as int));
            if r.len() <= 32 && s.len() <= 32 {
                Some(pad32(r) + pad32(s))
            } else {
                None
            }
        } else {
            None
        }
    } else {
        None
    }
}

proof fn lemma_strip_of_body(x: Seq<u8>)
    requires
        x.len() == 32,
        !is_zero_scalar(x),
    ensures
        strip_leading_zeros(der_integer_body(x)) == strip_leading_zeros(x),
        pad32(strip_leading_zeros(x)) == x,
        1 <= der_integer_body(x).len() <= 33,
{
    let t = strip_leading_zeros(x);
    let k = first_nonzero(x, 0);
    lemma_first_nonzero_bounds(x, 0);
    assert(t[0] == x[k]);
    assert(first_nonzero(t, 0) == 0);
    assert(strip_leading_zeros(t) =~= t);
    if t[0] >= 0x80 {
        let b = seq![0u8] + t;
        assert(b[1] == t[0]);
        assert(first_nonzero(b, 1) == 1);
        assert(first_nonzero(b, 0) == 1);
        assert(strip_leading_zeros(b) =~= t);
    }
    assert(pad32(t) =~= x);
}

/// Encoding a valid SEC1 signature as DER and reading the DER back yields
/// the same `r` and `s`.
pub proof fn lemma_der_round_trip(sec1: Seq<u8>)
    requires
        valid_sec1(sec1),
    ensures
        parse_der_signature(sec1_der(sec1)) == Some(sec1),
{
    let r = sec1.subrange(0, 32);
    let s = sec1.subrange(32, 64);
    lemma_strip_of_body(r);
    lemma_strip_of_body(s);
    let br = der_integer_body(r);
    let bs = der_integer_body(s);
    let d = sec1_der(sec1);
    let rl = br.len() as int;
    assert(d[3] as int == rl);
    assert(d.subrange(4, 4 + rl) =~= br);
    assert(d[4 + rl] == 0x02);
    assert(d[5 + rl] as int == bs.len());
    assert(d.subrange(6 + rl, d.len() as int) =~= bs);
    assert(pad32(strip_leading_zeros(r)) + pad32(strip_leading_zeros(s)) =~= sec1);
}

proof fn lemma_first_nonzero_bounds(s: Seq<u8>, i: int)
    requires
        0 <= i <= s.len(),
    ensures
        i <= first_nonzero(s, i) <= s.len(),
        forall|j: int| i <= j < first_nonzero(s, i) ==> s[j] == 0,
        first_nonzero(s, i) < s.len() ==> s[first_nonzero(s, i)] != 0,
    decreases s.len() - i,
{
    if i < s.len() && s[i] == 0 {
        lemma_first_nonzero_bounds(s, i + 1);
    }
}

/// Appends the DER INTEGER of `v@.subrange(start, end)` to `buf`, returning
/// the length of its content.
fn push_integer(buf: &mut Vec<u8>, v: &Vec<u8>, start: usize, end: usize) -> (n: u8)
    requires
        start <= end <= v.len(),
        end - start <= 32,
        !is_zero_scalar(v@.subrange(start as int, end as int)),
    ensures
        final(buf)@ == old(buf)@ + der_integer(v@.subrange(start as int, end as int)),
        n as int == der_integer_body(v@.subrange(start as int, end as int)).len(),
        1 <= n <= 33,
{
    let ghost s = v@.subrange(start as int, end as int);
    let mut i: usize = start;
    while i < end && v[i] == 0
        invariant
            start <= i <= end <= v.len(),
            s == v@.subrange(start as int, end as int),
            first_nonzero(s, 0) == first_nonzero(s, i - start),
        decreases end - i,
    {
        i = i + 1;
    }
    proof {
        lemma_first_nonzero_bounds(s, 0);
        lemma_first_nonzero_bounds(s, i - start);
        assert(first_nonzero(s, i - start) == i - start);
        assert(strip_leading_zeros(s) =~= v@.subrange(i as int, end as int));
    }
    let neg = v[i] >= 0x80;
    let n: u8 = if neg { (end - i + 1) as u8 } else { (end - i) as u8 };
    buf.push(0x02);
    buf.push(n);
    if neg {
        buf.push(0);
    }
    let mut j: usize = i;
    let ghost before = buf@;
    while j < end
        invariant
            i <= j <= end <= v.len(),
            buf@ == before + v@.subrange(i as int, j as int),
        decreases end - j,
    {
        buf.push(v[j]);
        j = j + 1;
        assert(buf@ =~= before + v@.subrange(i as int, j as int));
    }
    assert(buf@ =~= old(buf)@ + der_integer(s));
    n
}

fn scalar_is_zero(v: &Vec<u8>, start: usize, end: usize) -> (r: bool)
    requires
        start <= end <= v.len(),
    ensures
        r == is_zero_scalar(v@.subrange(start as int, end as int)),
{
    let ghost s = v@.subrange(start as int, end as int);
    let mut i: usize = start;
    while i < end && v[i] == 0
        invariant
            start <= i <= end <= v.len(),
            s == v@.subrange(start as int, end as int),
            first_nonzero(s, 0) == first_nonzero(s, i - start),
        decreases end - i,
    {
        i = i + 1;
    }
    proof {
        lemma_first_nonzero_bounds(s, 0);
        lemma_first_nonzero_bounds(s, i - start);
    }
    i == end
}

/// Whether `sec1` is 64 bytes with both scalars non-zero.
pub fn is_valid_sec1(sec1: &Vec<u8>) -> (r: bool)
    ensures
        r == valid_sec1(sec1@),
{
    sec1.len() == 64 && !scalar_is_zero(sec1, 0, 32) && !scalar_is_zero(sec1, 32, 64)
}

/// Converts a SEC1 signature `r ‖ s` (two 32-byte big-endian scalars) to its
/// DER encoding.
pub fn sec1_to_der(sec1: Vec<u8>) -> (der: Vec<u8>)
    requires
        valid_sec1(sec1@),
    ensures
        der@ == sec1_der(sec1@),
        der@.len() <= 72,
{
    let mut buf: Vec<u8> = Vec::with_capacity(72);
    buf.push(0x30);
    buf.push(4);
    let rlen = push_integer(&mut buf, &sec1, 0, 32);
    let slen = push_integer(&mut buf, &sec1, 32, 64);
    let total: u8 = 4 + rlen + slen;
    buf.set(1, total);
    assert(buf@ =~= sec1_der(sec1@));
    buf
}

} // verus!
