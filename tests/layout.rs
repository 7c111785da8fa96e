use std::cmp::Ordering;

use byteorder::{BigEndian, WriteBytesExt};
use keyspace::consts::{DATA_PREFIX, REGION_STATE_SUFFIX};
use keyspace::data::{data_key, validate_data_key};
use keyspace::region::{enc_end_key, enc_start_key, Peer, Region};
use keyspace::region_meta::{decode_region_meta_key, region_meta_prefix, region_state_key};
use keyspace::region_raft::{
    apply_state_key, decode_raft_log_key, raft_log_index, raft_log_key, raft_log_prefix,
    raft_state_key, region_raft_prefix,
};

#[test]
fn test_region_id_key() {
    let region_ids = vec![0, 1, 1024, u64::MAX];
    for region_id in region_ids {
        let prefix = region_raft_prefix(region_id);

        assert!(raft_log_prefix(region_id).starts_with(&prefix));
        assert!(raft_log_key(region_id, 1).starts_with(&prefix));
        assert!(raft_state_key(region_id).starts_with(&prefix));
        assert!(apply_state_key(region_id).starts_with(&prefix));
    }

    let tbls = vec![(1, 0, Ordering::Greater), (1, 1, Ordering::Equal), (1, 2, Ordering::Less)];
    for (lid, rid, order) in tbls {
        let lhs = region_raft_prefix(lid);
        let rhs = region_raft_prefix(rid);
        assert_eq!(lhs.partial_cmp(&rhs), Some(order));

        let lhs = raft_state_key(lid);
        let rhs = raft_state_key(rid);
        assert_eq!(lhs.partial_cmp(&rhs), Some(order));

        let lhs = apply_state_key(lid);
        let rhs = apply_state_key(rid);
        assert_eq!(lhs.partial_cmp(&rhs), Some(order));
    }
}

#[test]
fn test_raft_log_sort() {
    let tbls = vec![
        (1, 1, 1, 2, Ordering::Less),
        (2, 1, 1, 2, Ordering::Greater),
        (1, 1, 1, 1, Ordering::Equal),
    ];

    for (lid, l_log_id, rid, r_log_id, order) in tbls {
        let lhs = raft_log_key(lid, l_log_id);
        let rhs = raft_log_key(rid, r_log_id);
        assert_eq!(lhs.partial_cmp(&rhs), Some(order));
    }
}

#[test]
fn test_region_meta_key() {
    let ids = vec![1, 1024, u64::MAX];
    for id in ids {
        let prefix = region_meta_prefix(id);
        let info_key = region_state_key(id);
        assert!(info_key.starts_with(&prefix));

        assert_eq!(decode_region_meta_key(&info_key).unwrap(), (id, REGION_STATE_SUFFIX));
    }

    let tbls: Vec<(u64, u64, Ordering)> = vec![
        (1, 2, Ordering::Less),
        (1, 1, Ordering::Equal),
        (2, 1, Ordering::Greater),
    ];

    for (lkey, rkey, order) in tbls {
        let lhs = region_state_key(lkey);
        let rhs = region_state_key(rkey);
        assert_eq!(lhs.partial_cmp(&rhs), Some(order));
    }
}

#[test]
fn test_raft_log_key() {
    for region_id in 1..10 {
        for idx_id in 1..10 {
            let key = raft_log_key(region_id, idx_id);
            assert_eq!(idx_id, raft_log_index(&key).unwrap());
            assert_eq!((region_id, idx_id), decode_raft_log_key(&key).unwrap());
        }
    }

    let mut state_key = raft_state_key(1);
    // invalid length
    assert!(decode_raft_log_key(&state_key).is_err());

    state_key.write_u64::<BigEndian>(2).unwrap();
    // invalid suffix
    assert!(decode_raft_log_key(&state_key).is_err());

    let mut region_state_key = region_state_key(1);
    region_state_key.write_u64::<BigEndian>(2).unwrap();
    // invalid prefix
    assert!(decode_raft_log_key(&region_state_key).is_err());
}

#[test]
fn test_data_key() {
    assert!(validate_data_key(&data_key(b"abc")));
    assert!(!validate_data_key(b"abc"));

    let mut region = Region { start_key: vec![], end_key: vec![], peers: vec![] };
    // a region without peers has no encoded bounds
    assert!(enc_start_key(&region).is_none());
    assert!(enc_end_key(&region).is_none());

    region.peers.push(Peer { id: 0, store_id: 0 });
    assert_eq!(enc_start_key(&region).unwrap(), vec![DATA_PREFIX]);
    assert_eq!(enc_end_key(&region).unwrap(), vec![DATA_PREFIX + 1]);

    region.start_key = vec![1];
    region.end_key = vec![2];
    assert_eq!(enc_start_key(&region).unwrap(), vec![DATA_PREFIX, 1]);
    assert_eq!(enc_end_key(&region).unwrap(), vec![DATA_PREFIX, 2]);
}
