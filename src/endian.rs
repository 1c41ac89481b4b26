//! Byte-order conversions.
use vstd::prelude::*;

verus! {

/// The four bytes of `v`, least significant first.
pub open spec fn le_bytes(v: u32) -> Seq<u8> {
    seq![
        (v % 256) as u8,
        ((v / 256) % 256) as u8,
        ((v / 65536) % 256) as u8,
        (v / 16777216) as u8,
    ]
}

/// The number that four bytes stand for when read least significant first.
pub open spec fn le_value(b: Seq<u8>) -> int
    recommends
        b.len() == 4,
{
    b[0] + 256 * (b[1] + 256 * (b[2] + 256 * b[3]))
}

/// Returns a copy of `bytes` with the order of its elements reversed.
pub fn to_big_endian(bytes: &[u8]) -> (r: Vec<u8>)
    ensures
        r@ == bytes@.reverse(),
{
    let n = bytes.len();
    let mut r: Vec<u8> = Vec::with_capacity(n);
    let mut i: usize = n;
    while i > 0
        invariant
            n == bytes@.len(),
            i <= n,
            r@.len() == n - i,
            forall|k: int| 0 <= k < n - i ==> r@[k] == bytes@[n - 1 - k],
        decreases i,
    {
        i = i - 1;
        r.push(bytes[i]);
    }
    assert(r@ =~= bytes@.reverse());
    r
}

/// Encodes `num` as four bytes, least significant first.
pub fn swap_endian_u32(num: u32) -> (r: [u8; 4])
    ensures
        r@ == le_bytes(num),
{
    let r = [
        (num % 256) as u8,
        ((num / 256) % 256) as u8,
        ((num / 65536) % 256) as u8,
        (num / 16777216) as u8,
    ];
    assert(r@ =~= le_bytes(num));
    r
}

/// Reversing a byte sequence twice gives it back.
pub proof fn lemma_reverse_involution(b: Seq<u8>)
    ensures
        b.reverse().reverse() == b,
{
    if b.len() > 0 {
        assert(b.reverse().reverse() =~= b);
    }
}

/// Reading the little-endian encoding of `v` back as a little-endian number gives `v`.
pub proof fn lemma_le_bytes_inverse(v: u32)
    ensures
        le_value(le_bytes(v)) == v,
{
    let x = v as int;
    let b = le_bytes(v);
    assert(b[0] == x % 256);
    assert(b[1] == (x / 256) % 256);
    assert(b[2] == (x / 65536) % 256);
    assert(b[3] == x / 16777216);
    assert(x == x % 256 + 256 * (x / 256)) by (nonlinear_arith);
    assert(x / 256 == (x / 256) % 256 + 256 * (x / 65536)) by (nonlinear_arith);
    assert(x / 65536 == (x / 65536) % 256 + 256 * (x / 16777216)) by (nonlinear_arith);
}

} // verus!
