use vstd::prelude::*;
use crate::be::{append_u64_be, be_bytes, read_u64_be, lemma_be_bytes_injective, lemma_be_bytes_order};
use crate::consts::{LOCAL_PREFIX, REGION_RAFT_PREFIX, RAFT_LOG_SUFFIX, RAFT_STATE_SUFFIX, APPLY_STATE_SUFFIX};
use crate::error::{InvalidKey, KeyFault, invalid_key};
use crate::order::{key_lt, lemma_lt_embed};

verus! {

/// Bytes of the raft prefix, region id and suffix byte.
pub const REGION_ID_KEY_LEN: usize = 11;

/// Bytes of a raft log key: region id key and log index.
pub const RAFT_LOG_KEY_LEN: usize = 19;

/// All raft state of a region lies under this prefix.
pub open spec fn spec_region_raft_prefix(region_id: u64) -> Seq<u8> {
    seq![LOCAL_PREFIX, REGION_RAFT_PREFIX] + be_bytes(region_id)
}

/// The region's raft prefix followed by one suffix byte.
pub open spec fn spec_region_id_key(region_id: u64, suffix: u8) -> Seq<u8> {
    spec_region_raft_prefix(region_id).push(suffix)
}

pub open spec fn spec_raft_log_key(region_id: u64, log_index: u64) -> Seq<u8> {
    spec_region_id_key(region_id, RAFT_LOG_SUFFIX) + be_bytes(log_index)
}

pub open spec fn spec_raft_log_prefix(region_id: u64) -> Seq<u8> {
    spec_region_id_key(region_id, RAFT_LOG_SUFFIX)
}

pub open spec fn spec_raft_state_key(region_id: u64) -> Seq<u8> {
    spec_region_id_key(region_id, RAFT_STATE_SUFFIX)
}

pub open spec fn spec_apply_state_key(region_id: u64) -> Seq<u8> {
    spec_region_id_key(region_id, APPLY_STATE_SUFFIX)
}

/// Exactly the keys that `decode_raft_log_key` accepts: the right length,
/// the region raft prefix, and the log suffix after the region id.
pub open spec fn is_raft_log_key(k: Seq<u8>) -> bool {
    &&& k.len() == RAFT_LOG_KEY_LEN
    &&& k[0] == LOCAL_PREFIX
    &&& k[1] == REGION_RAFT_PREFIX
    &&& k[10] == RAFT_LOG_SUFFIX
}

/// The first expectation of a raft log key that `k` fails, checked in the
/// order length, prefix, suffix.
pub open spec fn raft_log_key_fault(k: Seq<u8>) -> KeyFault {
    if k.len() != RAFT_LOG_KEY_LEN {
        KeyFault::Length
    } else if k[0] != LOCAL_PREFIX || k[1] != REGION_RAFT_PREFIX {
        KeyFault::Prefix
    } else {
        KeyFault::Suffix
    }
}

fn make_region_id_key(region_id: u64, suffix: u8, extra_cap: usize) -> (r: Vec<u8>)
    requires
        extra_cap <= 8,
    ensures
        r@ == spec_region_id_key(region_id, suffix),
{
    let mut key: Vec<u8> = Vec::with_capacity(REGION_ID_KEY_LEN + extra_cap);
    key.push(LOCAL_PREFIX);
    key.push(REGION_RAFT_PREFIX);
    append_u64_be(&mut key, region_id);
    key.push(suffix);
    assert(key@ =~= spec_region_id_key(region_id, suffix));
    key
}

/// Inclusive lower scan bound of all raft state of the region.
pub fn region_raft_prefix(region_id: u64) -> (r: Vec<u8>)
    ensures
        r@ == spec_region_raft_prefix(region_id),
{
    let mut key: Vec<u8> = Vec::with_capacity(REGION_ID_KEY_LEN - 1);
    key.push(LOCAL_PREFIX);
    key.push(REGION_RAFT_PREFIX);
    append_u64_be(&mut key, region_id);
    assert(key@ =~= spec_region_raft_prefix(region_id));
    key
}

/// Length of the raft prefix with the region id and one suffix byte.
pub fn region_raft_prefix_len() -> (r: usize)
    ensures
        r == REGION_ID_KEY_LEN,
        r == spec_region_raft_prefix(0).len() + 1,
{
    REGION_ID_KEY_LEN
}

/// The key of the log entry `log_index` of the region.
pub fn raft_log_key(region_id: u64, log_index: u64) -> (r: Vec<u8>)
    ensures
        r@ == spec_raft_log_key(region_id, log_index),
{
    let mut key = make_region_id_key(region_id, RAFT_LOG_SUFFIX, 8);
    append_u64_be(&mut key, log_index);
    key
}

/// The key of the region's raft hard state.
pub fn raft_state_key(region_id: u64) -> (r: Vec<u8>)
    ensures
        r@ == spec_raft_state_key(region_id),
{
    make_region_id_key(region_id, RAFT_STATE_SUFFIX, 0)
}

/// The key of the region's applied index and term.
pub fn apply_state_key(region_id: u64) -> (r: Vec<u8>)
    ensures
        r@ == spec_apply_state_key(region_id),
{
    make_region_id_key(region_id, APPLY_STATE_SUFFIX, 0)
}

/// Prefix of the region's log entry keys only, without its state keys.
pub fn raft_log_prefix(region_id: u64) -> (r: Vec<u8>)
    ensures
        r@ == spec_raft_log_prefix(region_id),
{
    make_region_id_key(region_id, RAFT_LOG_SUFFIX, 0)
}

/// The log index of a key known to be a raft log key. Only the length is
/// checked: the index is read from the last eight bytes.
pub fn raft_log_index(key: &[u8]) -> (r: Result<u64, InvalidKey>)
    ensures
        r is Ok <==> key@.len() == RAFT_LOG_KEY_LEN,
        r matches Ok(idx) ==> be_bytes(idx) == key@.subrange(
            REGION_ID_KEY_LEN as int,
            RAFT_LOG_KEY_LEN as int,
        ),
        r matches Err(e) ==> e.key@ == key@ && e.fault == KeyFault::Length,
{
    if key.len() != RAFT_LOG_KEY_LEN {
        return Err(invalid_key(key, KeyFault::Length));
    }
    let tail = vstd::slice::slice_subrange(key, REGION_ID_KEY_LEN, RAFT_LOG_KEY_LEN);
    let idx = read_u64_be(tail);
    assert(tail@.subrange(0, 8) =~= tail@);
    Ok(idx)
}

/// The region id and log index of a raft log key.
pub fn decode_raft_log_key(key: &[u8]) -> (r: Result<(u64, u64), InvalidKey>)
    ensures
        r is Ok <==> is_raft_log_key(key@),
        r matches Ok((region_id, log_index)) ==> key@ == spec_raft_log_key(region_id, log_index),
        r matches Err(e) ==> e.key@ == key@ && e.fault == raft_log_key_fault(key@),
{
    let suffix_idx: usize = REGION_ID_KEY_LEN - 1;
    if key.len() != RAFT_LOG_KEY_LEN {
        return Err(invalid_key(key, KeyFault::Length));
    }
    if key[0] != LOCAL_PREFIX || key[1] != REGION_RAFT_PREFIX {
        return Err(invalid_key(key, KeyFault::Prefix));
    }
    if key[suffix_idx] != RAFT_LOG_SUFFIX {
        return Err(invalid_key(key, KeyFault::Suffix));
    }
    let id_bytes = vstd::slice::slice_subrange(key, 2, suffix_idx);
    let region_id = read_u64_be(id_bytes);
    let idx_bytes = vstd::slice::slice_subrange(key, REGION_ID_KEY_LEN, RAFT_LOG_KEY_LEN);
    let log_index = read_u64_be(idx_bytes);
    assert(id_bytes@.subrange(0, 8) =~= id_bytes@);
    assert(idx_bytes@.subrange(0, 8) =~= idx_bytes@);
    assert(key@ =~= spec_raft_log_key(region_id, log_index));
    Ok((region_id, log_index))
}

/// The region's raft prefix starts every raft key of that region: its log
/// prefix, each log entry key, its hard-state key and its apply-state key.
pub proof fn lemma_raft_prefix_covers(region_id: u64, log_index: u64)
    ensures
        spec_region_raft_prefix(region_id).is_prefix_of(spec_raft_log_prefix(region_id)),
        spec_region_raft_prefix(region_id).is_prefix_of(spec_raft_log_key(region_id, log_index)),
        spec_region_raft_prefix(region_id).is_prefix_of(spec_raft_state_key(region_id)),
        spec_region_raft_prefix(region_id).is_prefix_of(spec_apply_state_key(region_id)),
        spec_raft_log_prefix(region_id).is_prefix_of(spec_raft_log_key(region_id, log_index)),
{
    let p = spec_region_raft_prefix(region_id);
    assert(p =~= spec_raft_log_prefix(region_id).subrange(0, p.len() as int));
    assert(p =~= spec_raft_log_key(region_id, log_index).subrange(0, p.len() as int));
    assert(p =~= spec_raft_state_key(region_id).subrange(0, p.len() as int));
    assert(p =~= spec_apply_state_key(region_id).subrange(0, p.len() as int));
    let q = spec_raft_log_prefix(region_id);
    assert(q =~= spec_raft_log_key(region_id, log_index).subrange(0, q.len() as int));
}

/// Region order is key order: for region ids `a < b`, each raft key of `a`
/// sorts before the corresponding key of `b`, and every log entry of `a`
/// before every log entry of `b`.
pub proof fn lemma_raft_keys_ordered_by_region(a: u64, b: u64, i: u64, j: u64)
    requires
        a < b,
    ensures
        key_lt(spec_region_raft_prefix(a), spec_region_raft_prefix(b)),
        key_lt(spec_raft_log_prefix(a), spec_raft_log_prefix(b)),
        key_lt(spec_raft_state_key(a), spec_raft_state_key(b)),
        key_lt(spec_apply_state_key(a), spec_apply_state_key(b)),
        key_lt(spec_raft_log_key(a, i), spec_raft_log_key(b, j)),
{
    let p = seq![LOCAL_PREFIX, REGION_RAFT_PREFIX];
    let k = lemma_be_bytes_order(a, b);
    let e = Seq::<u8>::empty();
    lemma_lt_embed(p, be_bytes(a), be_bytes(b), e, e, k);
    assert(p + be_bytes(a) + e =~= spec_region_raft_prefix(a));
    assert(p + be_bytes(b) + e =~= spec_region_raft_prefix(b));
    let suffixes = seq![RAFT_LOG_SUFFIX, RAFT_STATE_SUFFIX, APPLY_STATE_SUFFIX];
    assert forall|n: int| 0 <= n < 3 implies key_lt(
        #[trigger] spec_region_id_key(a, suffixes[n]),
        spec_region_id_key(b, suffixes[n]),
    ) by {
        let x = seq![suffixes[n]];
        lemma_lt_embed(p, be_bytes(a), be_bytes(b), x, x, k);
        assert(p + be_bytes(a) + x =~= spec_region_id_key(a, suffixes[n]));
        assert(p + be_bytes(b) + x =~= spec_region_id_key(b, suffixes[n]));
    }
    assert(spec_region_id_key(a, suffixes[0]) == spec_raft_log_prefix(a));
    assert(spec_region_id_key(a, suffixes[1]) == spec_raft_state_key(a));
    assert(spec_region_id_key(a, suffixes[2]) == spec_apply_state_key(a));
    let x = seq![RAFT_LOG_SUFFIX] + be_bytes(i);
    let y = seq![RAFT_LOG_SUFFIX] + be_bytes(j);
    lemma_lt_embed(p, be_bytes(a), be_bytes(b), x, y, k);
    assert(p + be_bytes(a) + x =~= spec_raft_log_key(a, i));
    assert(p + be_bytes(b) + y =~= spec_raft_log_key(b, j));
}

/// Within one region, log entry keys sort by log index.
pub proof fn lemma_raft_log_keys_ordered_by_index(region_id: u64, i: u64, j: u64)
    requires
        i < j,
    ensures
        key_lt(spec_raft_log_key(region_id, i), spec_raft_log_key(region_id, j)),
{
    let p = spec_raft_log_prefix(region_id);
    let k = lemma_be_bytes_order(i, j);
    let e = Seq::<u8>::empty();
    lemma_lt_embed(p, be_bytes(i), be_bytes(j), e, e, k);
    assert(p + be_bytes(i) + e =~= spec_raft_log_key(region_id, i));
    assert(p + be_bytes(j) + e =~= spec_raft_log_key(region_id, j));
}

/// Round trip: a raft log key is accepted by `decode_raft_log_key`, the only
/// pair it can decode to is the one it was made from, and its last eight
/// bytes, which `raft_log_index` reads, encode the log index.
pub proof fn lemma_raft_log_key_round_trip(region_id: u64, log_index: u64)
    ensures
        is_raft_log_key(spec_raft_log_key(region_id, log_index)),
        forall|a: u64, b: u64|
            #[trigger] spec_raft_log_key(a, b) == spec_raft_log_key(region_id, log_index)
                ==> a == region_id && b == log_index,
        spec_raft_log_key(region_id, log_index).len() == RAFT_LOG_KEY_LEN,
        forall|n: u64|
            #[trigger] be_bytes(n) == spec_raft_log_key(region_id, log_index).subrange(
                REGION_ID_KEY_LEN as int,
                RAFT_LOG_KEY_LEN as int,
            ) ==> n == log_index,
{
    let k = spec_raft_log_key(region_id, log_index);
    assert(k.subrange(2, 10) =~= be_bytes(region_id));
    assert(k.subrange(11, 19) =~= be_bytes(log_index));
    assert forall|a: u64, b: u64| #[trigger] spec_raft_log_key(a, b) == k implies a == region_id
        && b == log_index by {
        let k2 = spec_raft_log_key(a, b);
        assert(k2.subrange(2, 10) =~= be_bytes(a));
        assert(k2.subrange(11, 19) =~= be_bytes(b));
        lemma_be_bytes_injective(a, region_id);
        lemma_be_bytes_injective(b, log_index);
    }
    assert forall|n: u64| #[trigger] be_bytes(n) == k.subrange(11, 19) implies n == log_index by {
        lemma_be_bytes_injective(n, log_index);
    }
}

/// `decode_raft_log_key` refuses a raft hard-state key, and the same key with
/// eight more bytes, whose suffix byte is not the log suffix.
pub proof fn lemma_raft_state_key_not_log_key(region_id: u64, extra: u64)
    ensures
        !is_raft_log_key(spec_raft_state_key(region_id)),
        raft_log_key_fault(spec_raft_state_key(region_id)) == KeyFault::Length,
        !is_raft_log_key(spec_raft_state_key(region_id) + be_bytes(extra)),
        raft_log_key_fault(spec_raft_state_key(region_id) + be_bytes(extra)) == KeyFault::Suffix,
{
}

} // verus!
