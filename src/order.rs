use vstd::prelude::*;

verus! {

/// `s` and `t` agree on their first `i` bytes, and position `i` is where `s`
/// falls below `t`: either `s` ends there while `t` goes on, or the byte of
/// `s` there is smaller.
pub open spec fn lt_at(s: Seq<u8>, t: Seq<u8>, i: int) -> bool {
    &&& 0 <= i <= s.len()
    &&& i <= t.len()
    &&& s.subrange(0, i) == t.subrange(0, i)
    &&& (i < s.len() && i < t.len() && s[i] < t[i]) || (i == s.len() && i < t.len())
}

/// Unsigned lexicographic order on byte strings: the iteration order of the
/// store, and the order of `<` on `Vec<u8>` and `[u8]`.
pub open spec fn key_lt(s: Seq<u8>, t: Seq<u8>) -> bool {
    exists|i: int| #[trigger] lt_at(s, t, i)
}

/// Two strings that agree up to `k` and have a smaller byte in `s` at `k`.
pub proof fn lemma_lt_at_first_diff(s: Seq<u8>, t: Seq<u8>, k: int)
    requires
        0 <= k < s.len(),
        k < t.len(),
        forall|j: int| 0 <= j < k ==> s[j] == t[j],
        s[k] < t[k],
    ensures
        lt_at(s, t, k),
{
    assert(s.subrange(0, k) =~= t.subrange(0, k));
}

/// A difference found strictly inside two equally long middles decides the
/// order of any strings built as `p + middle + tail`.
pub proof fn lemma_lt_embed(p: Seq<u8>, s: Seq<u8>, t: Seq<u8>, x: Seq<u8>, y: Seq<u8>, i: int)
    requires
        s.len() == t.len(),
        i < s.len(),
        lt_at(s, t, i),
    ensures
        key_lt(p + s + x, p + t + y),
        lt_at(p + s + x, p + t + y, p.len() + i),
{
    let a = p + s + x;
    let b = p + t + y;
    let k = p.len() + i;
    assert forall|j: int| 0 <= j < k implies a[j] == b[j] by {
        if j >= p.len() {
            assert(s.subrange(0, i)[j - p.len()] == t.subrange(0, i)[j - p.len()]);
        }
    }
    lemma_lt_at_first_diff(a, b, k);
}

/// A string that starts with a smaller byte sorts first.
pub proof fn lemma_lt_first_byte(s: Seq<u8>, t: Seq<u8>)
    requires
        s.len() > 0,
        t.len() > 0,
        s[0] < t[0],
    ensures
        key_lt(s, t),
{
    lemma_lt_at_first_diff(s, t, 0);
}

} // verus!
