use vstd::prelude::*;
use byteorder::{BigEndian, ByteOrder, WriteBytesExt};
use crate::order::{lt_at, lemma_lt_at_first_diff};

verus! {

/// The eight bytes of `n`, most significant first.
pub open spec fn be_bytes(n: u64) -> Seq<u8> {
    seq![
        (n >> 56u64) as u8,
        (n >> 48u64) as u8,
        (n >> 40u64) as u8,
        (n >> 32u64) as u8,
        (n >> 24u64) as u8,
        (n >> 16u64) as u8,
        (n >> 8u64) as u8,
        n as u8,
    ]
}

/// Relies on byteorder's `WriteBytesExt::write_u64::<BigEndian>`: on a `Vec`
/// it appends the eight big-endian bytes of `n`, and writing to a `Vec`
/// cannot fail.
#[verifier::external_body]
pub(crate) fn append_u64_be(key: &mut Vec<u8>, n: u64)
    ensures
        final(key)@ == old(key)@ + be_bytes(n),
{
    key.write_u64::<BigEndian>(n).unwrap();
}

/// Relies on byteorder's `BigEndian::read_u64`: the number whose big-endian
/// bytes are the first eight of `buf` (it panics on fewer).
#[verifier::external_body]
pub(crate) fn read_u64_be(buf: &[u8]) -> (r: u64)
    requires
        buf@.len() >= 8,
    ensures
        be_bytes(r) == buf@.subrange(0, 8),
{
    BigEndian::read_u64(buf)
}

/// Distinct numbers have distinct encodings.
pub proof fn lemma_be_bytes_injective(a: u64, b: u64)
    requires
        be_bytes(a) == be_bytes(b),
    ensures
        a == b,
{
    assert(be_bytes(a)[0] == be_bytes(b)[0]);
    assert(be_bytes(a)[1] == be_bytes(b)[1]);
    assert(be_bytes(a)[2] == be_bytes(b)[2]);
    assert(be_bytes(a)[3] == be_bytes(b)[3]);
    assert(be_bytes(a)[4] == be_bytes(b)[4]);
    assert(be_bytes(a)[5] == be_bytes(b)[5]);
    assert(be_bytes(a)[6] == be_bytes(b)[6]);
    assert(be_bytes(a)[7] == be_bytes(b)[7]);
    assert(a == b) by (bit_vector)
        requires
            (a >> 56u64) as u8 == (b >> 56u64) as u8,
            (a >> 48u64) as u8 == (b >> 48u64) as u8,
            (a >> 40u64) as u8 == (b >> 40u64) as u8,
            (a >> 32u64) as u8 == (b >> 32u64) as u8,
            (a >> 24u64) as u8 == (b >> 24u64) as u8,
            (a >> 16u64) as u8 == (b >> 16u64) as u8,
            (a >> 8u64) as u8 == (b >> 8u64) as u8,
            a as u8 == b as u8,
    ;
}

/// Big-endian encoding turns numeric order into byte order: for `a < b` the
/// encodings first differ at a byte where `a`'s is the smaller.
pub proof fn lemma_be_bytes_order(a: u64, b: u64) -> (i: int)
    requires
        a < b,
    ensures
        0 <= i < 8,
        lt_at(be_bytes(a), be_bytes(b), i),
{
    let s = be_bytes(a);
    let t = be_bytes(b);
    let a0 = (a >> 56u64) as u8;
    let a1 = (a >> 48u64) as u8;
    let a2 = (a >> 40u64) as u8;
    let a3 = (a >> 32u64) as u8;
    let a4 = (a >> 24u64) as u8;
    let a5 = (a >> 16u64) as u8;
    let a6 = (a >> 8u64) as u8;
    let a7 = a as u8;
    let b0 = (b >> 56u64) as u8;
    let b1 = (b >> 48u64) as u8;
    let b2 = (b >> 40u64) as u8;
    let b3 = (b >> 32u64) as u8;
    let b4 = (b >> 24u64) as u8;
    let b5 = (b >> 16u64) as u8;
    let b6 = (b >> 8u64) as u8;
    let b7 = b as u8;
    assert(
        a0 < b0
        || (a0 == b0 && a1 < b1)
        || (a0 == b0 && a1 == b1 && a2 < b2)
        || (a0 == b0 && a1 == b1 && a2 == b2 && a3 < b3)
        || (a0 == b0 && a1 == b1 && a2 == b2 && a3 == b3 && a4 < b4)
        || (a0 == b0 && a1 == b1 && a2 == b2 && a3 == b3 && a4 == b4 && a5 < b5)
        || (a0 == b0 && a1 == b1 && a2 == b2 && a3 == b3 && a4 == b4 && a5 == b5 && a6 < b6)
        || (a0 == b0 && a1 == b1 && a2 == b2 && a3 == b3 && a4 == b4 && a5 == b5 && a6 == b6
            && a7 < b7)
    ) by (bit_vector)
        requires
            a < b,
            a0 == (a >> 56u64) as u8,
            a1 == (a >> 48u64) as u8,
            a2 == (a >> 40u64) as u8,
            a3 == (a >> 32u64) as u8,
            a4 == (a >> 24u64) as u8,
            a5 == (a >> 16u64) as u8,
            a6 == (a >> 8u64) as u8,
            a7 == a as u8,
            b0 == (b >> 56u64) as u8,
            b1 == (b >> 48u64) as u8,
            b2 == (b >> 40u64) as u8,
            b3 == (b >> 32u64) as u8,
            b4 == (b >> 24u64) as u8,
            b5 == (b >> 16u64) as u8,
            b6 == (b >> 8u64) as u8,
            b7 == b as u8,
    ;
    let k: int = if a0 < b0 {
        0
    } else if a1 < b1 {
        1
    } else if a2 < b2 {
        2
    } else if a3 < b3 {
        3
    } else if a4 < b4 {
        4
    } else if a5 < b5 {
        5
    } else if a6 < b6 {
        6
    } else {
        7
    };
    assert(s[0] == a0 && s[1] == a1 && s[2] == a2 && s[3] == a3);
    assert(s[4] == a4 && s[5] == a5 && s[6] == a6 && s[7] == a7);
    assert(t[0] == b0 && t[1] == b1 && t[2] == b2 && t[3] == b3);
    assert(t[4] == b4 && t[5] == b5 && t[6] == b6 && t[7] == b7);
    lemma_lt_at_first_diff(s, t, k);
    k
}

} // verus!
