use vstd::prelude::*;

verus! {

/// First byte of every local (administrative) key.
pub const LOCAL_PREFIX: u8 = 0x01;

/// First byte of every data key.
pub const DATA_PREFIX: u8 = 0x7A;

/// Second byte of the store identity key.
pub const STORE_IDENT_PREFIX: u8 = 0x01;

/// Second byte of every per-region raft key.
pub const REGION_RAFT_PREFIX: u8 = 0x02;

/// Second byte of every per-region meta key.
pub const REGION_META_PREFIX: u8 = 0x03;

/// Suffix of a raft log entry key, after the region id.
pub const RAFT_LOG_SUFFIX: u8 = 0x01;

/// Suffix of the raft hard-state key.
pub const RAFT_STATE_SUFFIX: u8 = 0x02;

/// Suffix of the apply-state key.
pub const APPLY_STATE_SUFFIX: u8 = 0x03;

/// Suffix of the region lifecycle-state key, after the region id.
pub const REGION_STATE_SUFFIX: u8 = 0x01;

/// The smallest key: the empty string.
pub const MIN_KEY: [u8; 0] = [];

/// A key above every key of the store.
pub const MAX_KEY: [u8; 1] = [0xFF];

/// Lower scan bound of the local keys.
pub const LOCAL_MIN_KEY: [u8; 1] = [LOCAL_PREFIX];

/// Upper scan bound of the local keys.
pub const LOCAL_MAX_KEY: [u8; 1] = [LOCAL_PREFIX + 1];

/// Lower scan bound of the data keys.
pub const DATA_MIN_KEY: [u8; 1] = [DATA_PREFIX];

/// Upper scan bound of the data keys.
pub const DATA_MAX_KEY: [u8; 1] = [DATA_PREFIX + 1];

/// Lower scan bound of the region meta keys.
pub const REGION_META_MIN_KEY: [u8; 2] = [LOCAL_PREFIX, REGION_META_PREFIX];

/// Upper scan bound of the region meta keys.
pub const REGION_META_MAX_KEY: [u8; 2] = [LOCAL_PREFIX, REGION_META_PREFIX + 1];

/// The store identity key.
pub open spec fn spec_store_ident_key() -> Seq<u8> {
    seq![LOCAL_PREFIX, STORE_IDENT_PREFIX]
}

/// The key of the store identity, a singleton.
pub fn store_ident_key() -> (r: Vec<u8>)
    ensures
        r@ == spec_store_ident_key(),
{
    let mut key: Vec<u8> = Vec::with_capacity(2);
    key.push(LOCAL_PREFIX);
    key.push(STORE_IDENT_PREFIX);
    assert(key@ =~= spec_store_ident_key());
    key
}

} // verus!
