use keyspace::consts::{
    DATA_MAX_KEY, DATA_MIN_KEY, LOCAL_MAX_KEY, LOCAL_MIN_KEY, MAX_KEY, MIN_KEY,
    REGION_META_MAX_KEY, REGION_META_MIN_KEY, REGION_STATE_SUFFIX, store_ident_key,
};
use keyspace::data::{data_end_key, data_key, origin_key, validate_data_key};
use keyspace::error::{escape, KeyFault};
use keyspace::region_meta::{decode_region_meta_key, region_meta_prefix, region_state_key};
use keyspace::region_raft::{
    apply_state_key, decode_raft_log_key, raft_log_index, raft_log_key, raft_log_prefix,
    raft_state_key, region_raft_prefix, region_raft_prefix_len,
};

#[test]
fn exact_local_key_bytes() {
    assert_eq!(store_ident_key(), vec![0x01, 0x01]);
    assert_eq!(region_raft_prefix(0x0102), vec![1, 2, 0, 0, 0, 0, 0, 0, 1, 2]);
    assert_eq!(raft_log_prefix(7), vec![1, 2, 0, 0, 0, 0, 0, 0, 0, 7, 1]);
    assert_eq!(raft_state_key(7), vec![1, 2, 0, 0, 0, 0, 0, 0, 0, 7, 2]);
    assert_eq!(apply_state_key(7), vec![1, 2, 0, 0, 0, 0, 0, 0, 0, 7, 3]);
    assert_eq!(
        raft_log_key(1, 0x0A0B),
        vec![1, 2, 0, 0, 0, 0, 0, 0, 0, 1, 1, 0, 0, 0, 0, 0, 0, 0x0A, 0x0B]
    );
    assert_eq!(region_meta_prefix(u64::MAX), vec![1, 3, 255, 255, 255, 255, 255, 255, 255, 255]);
    assert_eq!(region_state_key(256), vec![1, 3, 0, 0, 0, 0, 0, 0, 1, 0, 1]);
    assert_eq!(region_raft_prefix_len(), 11);
}

#[test]
fn namespace_constants_are_ordered() {
    assert!(MIN_KEY.is_empty());
    assert_eq!(MAX_KEY, [0xFF]);
    assert_eq!(LOCAL_MIN_KEY, [0x01]);
    assert_eq!(LOCAL_MAX_KEY, [0x02]);
    assert_eq!(DATA_MIN_KEY, [0x7A]);
    assert_eq!(DATA_MAX_KEY, [0x7B]);
    assert_eq!(REGION_META_MIN_KEY, [0x01, 0x03]);
    assert_eq!(REGION_META_MAX_KEY, [0x01, 0x04]);
    assert!(MIN_KEY[..] < LOCAL_MIN_KEY[..]);
    assert!(LOCAL_MAX_KEY[..] <= DATA_MIN_KEY[..]);
    assert!(DATA_MAX_KEY[..] < MAX_KEY[..]);
    assert!(apply_state_key(u64::MAX)[..] < LOCAL_MAX_KEY[..]);
    assert!(region_state_key(u64::MAX)[..] < REGION_META_MAX_KEY[..]);
    assert!(data_key(b"")[..] < data_end_key(b"")[..]);
}

#[test]
fn raft_log_round_trip_edges() {
    for region_id in [0, 1, 1024, u64::MAX] {
        for idx in 1..10 {
            let key = raft_log_key(region_id, idx);
            assert_eq!(decode_raft_log_key(&key).unwrap(), (region_id, idx));
            assert_eq!(raft_log_index(&key).unwrap(), idx);
        }
    }
    let key = raft_log_key(u64::MAX, u64::MAX);
    assert_eq!(decode_raft_log_key(&key).unwrap(), (u64::MAX, u64::MAX));
}

#[test]
fn raft_log_keys_sort_by_region_then_index() {
    assert!(raft_log_key(1, 1) < raft_log_key(1, 2));
    assert!(!(raft_log_key(1, 1) > raft_log_key(1, 2)));
    assert!(raft_log_key(2, 1) > raft_log_key(1, 2));
    assert!(raft_log_key(1, 255) < raft_log_key(1, 256));
    assert!(raft_log_key(255, u64::MAX) < raft_log_key(256, 0));
    assert!(region_raft_prefix(1) < region_raft_prefix(2));
}

#[test]
fn decode_raft_log_key_faults() {
    let short = raft_state_key(1);
    assert_eq!(decode_raft_log_key(&short).unwrap_err().fault, KeyFault::Length);
    assert_eq!(decode_raft_log_key(&short).unwrap_err().key, short);

    let mut wrong_suffix = raft_state_key(1);
    wrong_suffix.extend_from_slice(&[0, 0, 0, 0, 0, 0, 0, 2]);
    assert_eq!(decode_raft_log_key(&wrong_suffix).unwrap_err().fault, KeyFault::Suffix);

    let mut wrong_prefix = region_state_key(1);
    wrong_prefix.extend_from_slice(&[0, 0, 0, 0, 0, 0, 0, 2]);
    assert_eq!(decode_raft_log_key(&wrong_prefix).unwrap_err().fault, KeyFault::Prefix);

    assert_eq!(decode_raft_log_key(b"").unwrap_err().fault, KeyFault::Length);
}

#[test]
fn raft_log_index_checks_length_only() {
    let mut any = region_state_key(3);
    any.extend_from_slice(&[0, 0, 0, 0, 0, 0, 0x01, 0x02]);
    assert_eq!(raft_log_index(&any).unwrap(), 0x0102);
    let err = raft_log_index(&raft_log_prefix(3)).unwrap_err();
    assert_eq!(err.fault, KeyFault::Length);
}

#[test]
fn decode_hand_made_log_key() {
    let key = [1, 2, 0, 0, 0, 0, 0, 0, 0x12, 0x34, 1, 0x80, 0, 0, 0, 0, 0, 0, 5];
    assert_eq!(decode_raft_log_key(&key).unwrap(), (0x1234, 0x8000_0000_0000_0005));
}

#[test]
fn region_meta_decoding() {
    assert_eq!(decode_region_meta_key(&region_state_key(0)).unwrap(), (0, REGION_STATE_SUFFIX));
    let key = [1, 3, 0, 0, 0, 0, 0, 0, 0, 9, 0x42];
    assert_eq!(decode_region_meta_key(&key).unwrap(), (9, 0x42));
    assert_eq!(decode_region_meta_key(&region_meta_prefix(9)).unwrap_err().fault, KeyFault::Length);
    let err = decode_region_meta_key(&raft_state_key(9)).unwrap_err();
    assert_eq!(err.fault, KeyFault::Prefix);
    assert_eq!(err.key, raft_state_key(9));
    assert!(region_state_key(1) < region_state_key(2));
    assert!(region_state_key(u64::MAX) > region_state_key(1024));
}

#[test]
fn data_key_codec() {
    assert_eq!(data_key(b""), vec![b'z']);
    assert_eq!(data_key(b"abc"), vec![b'z', b'a', b'b', b'c']);
    assert!(validate_data_key(&data_key(b"abc")));
    assert!(!validate_data_key(b"abc"));
    assert!(!validate_data_key(b""));
    assert_eq!(origin_key(&data_key(b"abc")), Some(&b"abc"[..]));
    assert_eq!(origin_key(b"z"), Some(&b""[..]));
    assert_eq!(origin_key(b"abc"), None);
    assert_eq!(data_end_key(b""), vec![b'z' + 1]);
    assert_eq!(data_end_key(b"k"), vec![b'z', b'k']);
}

#[test]
fn escape_renders_printable() {
    assert_eq!(escape(b"abc"), b"abc".to_vec());
    assert_eq!(escape(b""), Vec::<u8>::new());
    assert_eq!(escape(b"a\n\r\t\"\\"), br#"a\n\r\t\"\\"#.to_vec());
    assert_eq!(escape(&[0x01, 0x7F, 0xFF, 0x20]), br"\001\177\377 ".to_vec());
    let err = decode_raft_log_key(&[1, 2, b'z']).unwrap_err();
    assert_eq!(String::from_utf8(err.escaped_key()).unwrap(), "\\001\\002z");
}
