use vstd::prelude::*;
use crate::consts::{DATA_PREFIX, LOCAL_PREFIX};
use crate::order::{key_lt, lemma_lt_first_byte};

verus! {

/// A user key under the data namespace.
pub open spec fn spec_data_key(user_key: Seq<u8>) -> Seq<u8> {
    seq![DATA_PREFIX] + user_key
}

/// Whether `k` lies in the data namespace.
pub open spec fn is_data_key(k: Seq<u8>) -> bool {
    k.len() > 0 && k[0] == DATA_PREFIX
}

/// Upper scan bound of the data namespace.
pub open spec fn spec_data_max_key() -> Seq<u8> {
    seq![(DATA_PREFIX + 1) as u8]
}

/// The encoded end of a region: its data key, or the end of the data
/// namespace when the region has no upper bound (an empty end key).
pub open spec fn spec_data_end_key(region_end_key: Seq<u8>) -> Seq<u8> {
    if region_end_key.len() == 0 {
        spec_data_max_key()
    } else {
        spec_data_key(region_end_key)
    }
}

/// Whether `key` starts with the data prefix.
pub fn validate_data_key(key: &[u8]) -> (r: bool)
    ensures
        r == is_data_key(key@),
{
    key.len() > 0 && key[0] == DATA_PREFIX
}

/// The store key of the user key `key`.
pub fn data_key(key: &[u8]) -> (r: Vec<u8>)
    requires
        key@.len() < usize::MAX,
    ensures
        r@ == spec_data_key(key@),
{
    let mut v: Vec<u8> = Vec::with_capacity(1 + key.len());
    v.push(DATA_PREFIX);
    v.extend_from_slice(key);
    assert(v@ =~= spec_data_key(key@));
    v
}

/// The user key of a data key, or `None` when `key` is not a data key.
pub fn origin_key(key: &[u8]) -> (r: Option<&[u8]>)
    ensures
        r is Some <==> is_data_key(key@),
        r matches Some(u) ==> key@ == spec_data_key(u@),
{
    if !validate_data_key(key) {
        return None;
    }
    let u = vstd::slice::slice_subrange(key, 1, key.len());
    assert(key@ =~= spec_data_key(u@));
    Some(u)
}

/// The encoded end key of a region whose end key is `region_end_key`.
pub fn data_end_key(region_end_key: &[u8]) -> (r: Vec<u8>)
    requires
        region_end_key@.len() < usize::MAX,
    ensures
        r@ == spec_data_end_key(region_end_key@),
{
    if region_end_key.len() == 0 {
        let mut v: Vec<u8> = Vec::with_capacity(1);
        v.push(DATA_PREFIX + 1);
        assert(v@ =~= spec_data_max_key());
        v
    } else {
        data_key(region_end_key)
    }
}

/// Every data key is recognised as one, and `origin_key` gives back exactly
/// the user key it was made from.
pub proof fn lemma_data_key_round_trip(user_key: Seq<u8>)
    ensures
        is_data_key(spec_data_key(user_key)),
        forall|u: Seq<u8>| #[trigger] spec_data_key(u) == spec_data_key(user_key) ==> u == user_key,
{
    assert forall|u: Seq<u8>| #[trigger] spec_data_key(u) == spec_data_key(user_key) implies u
        == user_key by {
        assert(u =~= spec_data_key(u).skip(1));
        assert(user_key =~= spec_data_key(user_key).skip(1));
    }
}

/// The namespaces do not cross: every local key sorts before every data
/// key, and every data key, the encoded end of any region included, sorts
/// before the maximum key.
pub proof fn lemma_namespaces_ordered(local: Seq<u8>, user_key: Seq<u8>, region_end_key: Seq<u8>)
    requires
        local.len() > 0,
        local[0] == LOCAL_PREFIX,
    ensures
        key_lt(local, spec_data_key(user_key)),
        key_lt(spec_data_key(user_key), seq![0xFFu8]),
        key_lt(spec_data_end_key(region_end_key), seq![0xFFu8]),
        key_lt(spec_data_key(user_key), spec_data_max_key()),
{
    lemma_lt_first_byte(local, spec_data_key(user_key));
    lemma_lt_first_byte(spec_data_key(user_key), seq![0xFFu8]);
    lemma_lt_first_byte(spec_data_end_key(region_end_key), seq![0xFFu8]);
    lemma_lt_first_byte(spec_data_key(user_key), spec_data_max_key());
}

} // verus!
