use vstd::prelude::*;
use crate::be::{append_u64_be, be_bytes, read_u64_be, lemma_be_bytes_injective, lemma_be_bytes_order};
use crate::consts::{LOCAL_PREFIX, REGION_META_PREFIX, REGION_STATE_SUFFIX};
use crate::error::{InvalidKey, KeyFault, invalid_key};
use crate::order::{key_lt, lemma_lt_embed};
use crate::region_raft::{is_raft_log_key, raft_log_key_fault};

verus! {

/// Bytes of a region meta key: meta prefix, region id and suffix byte.
pub const REGION_META_KEY_LEN: usize = 11;

/// All meta data of a region lies under this prefix.
pub open spec fn spec_region_meta_prefix(region_id: u64) -> Seq<u8> {
    seq![LOCAL_PREFIX, REGION_META_PREFIX] + be_bytes(region_id)
}

/// The region's meta prefix followed by one suffix byte.
pub open spec fn spec_region_meta_key(region_id: u64, suffix: u8) -> Seq<u8> {
    spec_region_meta_prefix(region_id).push(suffix)
}

pub open spec fn spec_region_state_key(region_id: u64) -> Seq<u8> {
    spec_region_meta_key(region_id, REGION_STATE_SUFFIX)
}

/// Exactly the keys that `decode_region_meta_key` accepts: the right length
/// and the region meta prefix, whatever the suffix byte.
pub open spec fn is_region_meta_key(k: Seq<u8>) -> bool {
    &&& k.len() == REGION_META_KEY_LEN
    &&& k[0] == LOCAL_PREFIX
    &&& k[1] == REGION_META_PREFIX
}

fn make_region_meta_key(region_id: u64, suffix: u8) -> (r: Vec<u8>)
    ensures
        r@ == spec_region_meta_key(region_id, suffix),
{
    let mut key: Vec<u8> = Vec::with_capacity(REGION_META_KEY_LEN);
    key.push(LOCAL_PREFIX);
    key.push(REGION_META_PREFIX);
    append_u64_be(&mut key, region_id);
    key.push(suffix);
    assert(key@ =~= spec_region_meta_key(region_id, suffix));
    key
}

/// The region id and the raw suffix byte of a region meta key. Any suffix
/// byte is accepted, so that new kinds of meta keys decode too.
pub fn decode_region_meta_key(key: &[u8]) -> (r: Result<(u64, u8), InvalidKey>)
    ensures
        r is Ok <==> is_region_meta_key(key@),
        r matches Ok((region_id, suffix)) ==> key@ == spec_region_meta_key(region_id, suffix),
        r matches Err(e) ==> e.key@ == key@ && e.fault == if key@.len() != REGION_META_KEY_LEN {
            KeyFault::Length
        } else {
            KeyFault::Prefix
        },
{
    if key.len() != REGION_META_KEY_LEN {
        return Err(invalid_key(key, KeyFault::Length));
    }
    if key[0] != LOCAL_PREFIX || key[1] != REGION_META_PREFIX {
        return Err(invalid_key(key, KeyFault::Prefix));
    }
    let id_bytes = vstd::slice::slice_subrange(key, 2, REGION_META_KEY_LEN - 1);
    let region_id = read_u64_be(id_bytes);
    let suffix = key[REGION_META_KEY_LEN - 1];
    assert(id_bytes@.subrange(0, 8) =~= id_bytes@);
    assert(key@ =~= spec_region_meta_key(region_id, suffix));
    Ok((region_id, suffix))
}

/// Inclusive lower scan bound of the region's meta data.
pub fn region_meta_prefix(region_id: u64) -> (r: Vec<u8>)
    ensures
        r@ == spec_region_meta_prefix(region_id),
{
    let mut key: Vec<u8> = Vec::with_capacity(REGION_META_KEY_LEN - 1);
    key.push(LOCAL_PREFIX);
    key.push(REGION_META_PREFIX);
    append_u64_be(&mut key, region_id);
    assert(key@ =~= spec_region_meta_prefix(region_id));
    key
}

/// The key of the region's lifecycle state.
pub fn region_state_key(region_id: u64) -> (r: Vec<u8>)
    ensures
        r@ == spec_region_state_key(region_id),
{
    make_region_meta_key(region_id, REGION_STATE_SUFFIX)
}

/// Round trip: a region meta key is accepted by `decode_region_meta_key`,
/// and the only pair it can decode to is the region id and suffix it was
/// made from; the meta prefix starts it.
pub proof fn lemma_region_meta_key_round_trip(region_id: u64, suffix: u8)
    ensures
        is_region_meta_key(spec_region_meta_key(region_id, suffix)),
        forall|a: u64, s: u8|
            #[trigger] spec_region_meta_key(a, s) == spec_region_meta_key(region_id, suffix)
                ==> a == region_id && s == suffix,
        spec_region_meta_prefix(region_id).is_prefix_of(spec_region_meta_key(region_id, suffix)),
{
    let k = spec_region_meta_key(region_id, suffix);
    assert(k.subrange(2, 10) =~= be_bytes(region_id));
    assert forall|a: u64, s: u8| #[trigger] spec_region_meta_key(a, s) == k implies a
        == region_id && s == suffix by {
        let k2 = spec_region_meta_key(a, s);
        assert(k2.subrange(2, 10) =~= be_bytes(a));
        assert(k2[10] == s);
        lemma_be_bytes_injective(a, region_id);
    }
    let p = spec_region_meta_prefix(region_id);
    assert(p =~= k.subrange(0, p.len() as int));
}

/// Region order is key order for meta keys: for `a < b`, the meta prefix
/// and every meta key of `a` sort before those of `b`.
pub proof fn lemma_meta_keys_ordered_by_region(a: u64, b: u64, sa: u8, sb: u8)
    requires
        a < b,
    ensures
        key_lt(spec_region_meta_prefix(a), spec_region_meta_prefix(b)),
        key_lt(spec_region_meta_key(a, sa), spec_region_meta_key(b, sb)),
        key_lt(spec_region_state_key(a), spec_region_state_key(b)),
{
    let p = seq![LOCAL_PREFIX, REGION_META_PREFIX];
    let k = lemma_be_bytes_order(a, b);
    let e = Seq::<u8>::empty();
    lemma_lt_embed(p, be_bytes(a), be_bytes(b), e, e, k);
    assert(p + be_bytes(a) + e =~= spec_region_meta_prefix(a));
    assert(p + be_bytes(b) + e =~= spec_region_meta_prefix(b));
    lemma_lt_embed(p, be_bytes(a), be_bytes(b), seq![sa], seq![sb], k);
    assert(p + be_bytes(a) + seq![sa] =~= spec_region_meta_key(a, sa));
    assert(p + be_bytes(b) + seq![sb] =~= spec_region_meta_key(b, sb));
    let s = REGION_STATE_SUFFIX;
    lemma_lt_embed(p, be_bytes(a), be_bytes(b), seq![s], seq![s], k);
    assert(p + be_bytes(a) + seq![s] =~= spec_region_state_key(a));
    assert(p + be_bytes(b) + seq![s] =~= spec_region_state_key(b));
}

/// `decode_raft_log_key` refuses a region state key with eight bytes
/// appended: it has a raft log key's length but the meta prefix.
pub proof fn lemma_region_state_key_not_log_key(region_id: u64, extra: u64)
    ensures
        !is_raft_log_key(spec_region_state_key(region_id) + be_bytes(extra)),
        raft_log_key_fault(spec_region_state_key(region_id) + be_bytes(extra)) == KeyFault::Prefix,
{
}

} // verus!
