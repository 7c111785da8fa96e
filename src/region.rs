use vstd::prelude::*;
use crate::data::{data_end_key, data_key, spec_data_end_key, spec_data_key};

verus! {

/// A member of a region's replica group.
#[derive(Debug, Clone, Copy, PartialEq, Eq, Structural)]
pub struct Peer {
    pub id: u64,
    pub store_id: u64,
}

/// What the boundary encoders read of a region: its key range, with an
/// empty end key meaning no upper bound, and its peers. A region is
/// initialized when it has at least one peer.
#[derive(Debug, Clone)]
pub struct Region {
    pub start_key: Vec<u8>,
    pub end_key: Vec<u8>,
    pub peers: Vec<Peer>,
}

impl Region {
    pub open spec fn is_initialized(&self) -> bool {
        self.peers@.len() > 0
    }
}

/// The encoded start key of an initialized region, `None` for a region
/// without peers.
pub fn enc_start_key(region: &Region) -> (r: Option<Vec<u8>>)
    requires
        region.start_key@.len() < usize::MAX,
    ensures
        r is Some <==> region.is_initialized(),
        r matches Some(k) ==> k@ == spec_data_key(region.start_key@),
{
    if region.peers.len() == 0 {
        return None;
    }
    Some(data_key(region.start_key.as_slice()))
}

/// The encoded end key of an initialized region, `None` for a region
/// without peers. A region without an upper bound ends at the top of the
/// data namespace.
pub fn enc_end_key(region: &Region) -> (r: Option<Vec<u8>>)
    requires
        region.end_key@.len() < usize::MAX,
    ensures
        r is Some <==> region.is_initialized(),
        r matches Some(k) ==> k@ == spec_data_end_key(region.end_key@),
{
    if region.peers.len() == 0 {
        return None;
    }
    Some(data_end_key(region.end_key.as_slice()))
}

} // verus!
