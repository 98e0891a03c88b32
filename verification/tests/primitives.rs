use catscope_edge_generator::primitive::common::{match_discriminator, read_u32_le, read_u64_le};
use catscope_edge_generator::primitive::pubkey::Pubkey;
use catscope_edge_generator::primitive::tree::{push_link, FilterEdge, WEIGHT_DIRECT};
use catscope_edge_generator::primitive::err::CatscopeWasmError;
use catscope_edge_generator::primitive::wasmimport::{
    pubkey_cache_must_clear, pubkey_lookup_needed, HostImport, TransactionState,
    MAX_PUBKEY_HASHMAP_SIZE,
};
use catscope_edge_generator::{pubkey_not_blank, read_pubkey, DISCRIMINATOR_SIZE};
use std::collections::VecDeque;

fn key(b: u8) -> Pubkey {
    Pubkey::new_from_array([b; 32])
}

#[test]
fn read_at_takes_the_32_bytes_at_the_offset() {
    let mut data = vec![0u8; 40];
    for i in 0..40 {
        data[i] = i as u8;
    }
    let k = Pubkey::read_at(&data, 5);
    let expected: Vec<u8> = (5u8..37).collect();
    assert_eq!(k.bytes.to_vec(), expected);
}

#[test]
fn same_compares_every_byte() {
    let a = key(7);
    let mut b = key(7);
    assert!(a.same(&b));
    b.bytes[31] = 8;
    assert!(!a.same(&b));
}

#[test]
fn system_address_is_all_zero() {
    assert!(key(0).is_system());
    let mut k = key(0);
    k.bytes[17] = 1;
    assert!(!k.is_system());
}

#[test]
fn discriminator_matches_prefix_only() {
    let d = [1u8, 2, 3, 4, 5, 6, 7, 8];
    assert!(match_discriminator(&d, &[1, 2, 3, 4, 5, 6, 7, 8, 99]));
    assert!(match_discriminator(&d, &[1, 2, 3, 4, 5, 6, 7, 8]));
    assert!(!match_discriminator(&d, &[1, 2, 3, 4, 5, 6, 7]));
    assert!(!match_discriminator(&d, &[1, 2, 3, 4, 5, 6, 7, 9]));
    assert!(!match_discriminator(&d, &[]));
    assert_eq!(DISCRIMINATOR_SIZE, 8);
}

#[test]
fn little_endian_reads() {
    let data = [0xffu8, 0x01, 0x02, 0x03, 0x04, 0x05, 0x06, 0x07, 0x08];
    assert_eq!(read_u32_le(&data, 1), 0x04030201);
    assert_eq!(read_u64_le(&data, 1), 0x0807060504030201);
    assert_eq!(read_u64_le(&[0xff; 8], 0), u64::MAX);
}

#[test]
fn pubkey_not_blank_drops_the_system_program() {
    assert!(pubkey_not_blank(&key(0)).is_none());
    assert_eq!(pubkey_not_blank(&key(3)), Some(&key(3)));
}

#[test]
fn read_pubkey_needs_exactly_32_non_zero_bytes() {
    assert_eq!(read_pubkey(&[9u8; 32]), Some(key(9)));
    assert_eq!(read_pubkey(&[9u8; 31]), None);
    assert_eq!(read_pubkey(&[9u8; 33]), None);
    assert_eq!(read_pubkey(&[0u8; 32]), None);
}

#[test]
fn push_link_appends_at_the_end() {
    let mut list: VecDeque<FilterEdge> = VecDeque::new();
    push_link(&mut list, 5, WEIGHT_DIRECT, key(1), key(2));
    push_link(&mut list, 6, WEIGHT_DIRECT, key(3), key(4));
    assert_eq!(list.len(), 2);
    assert_eq!(list[1], FilterEdge { slot: 6, weight: WEIGHT_DIRECT, from: key(3), to: key(4) });
}

#[test]
fn tx_response_updates_known_transactions_only() {
    let mut hi = HostImport::default();
    assert!(hi.m_tx.is_empty());
    hi.m_tx.insert(42, TransactionState::new());
    hi.tx_response(42, 1000, 3);
    hi.tx_response(7, 2000, 4);
    assert_eq!(hi.m_tx.len(), 1);
    assert!(hi.m_tx.contains_key(&42));
    assert!(!hi.m_tx.contains_key(&7));
    assert_eq!(hi.m_tx[&42].current_slot(), 1000);
    assert_eq!(hi.m_tx[&42].current_status(), 3);
}

#[test]
fn tx_response_after_send_is_held() {
    let mut hi = HostImport::default();
    assert_eq!(hi.tx_sent(9, 0), Ok(9));
    assert_eq!(hi.m_tx[&9].current_status(), 0);
    assert_eq!(hi.m_tx[&9].current_slot(), 0);
    hi.tx_response(9, 1234, 2);
    assert_eq!(hi.m_tx.len(), 1);
    assert_eq!(hi.m_tx[&9].current_slot(), 1234);
    assert_eq!(hi.m_tx[&9].current_status(), 2);
    assert_eq!(hi.tx_sent(9, 5), Ok(9));
    assert_eq!(hi.m_tx[&9].current_slot(), 0);
    assert_eq!(hi.m_tx[&9].current_status(), 0);
}

#[test]
fn tx_send_errors_follow_the_host() {
    assert_eq!(HostImport::tx_check(&[]), Err(CatscopeWasmError::InsufficientBuffer));
    assert_eq!(HostImport::tx_check(&[1, 2, 3]), Ok(()));
    let mut hi = HostImport::default();
    assert_eq!(hi.tx_sent(11, -1), Err(CatscopeWasmError::NotImplemented));
    assert!(hi.m_tx.is_empty());
    assert_eq!(hi.tx_sent(11, 1), Ok(11));
    assert!(hi.m_tx.contains_key(&11));
}

#[test]
fn pubkey_lookup_decisions() {
    assert!(!pubkey_lookup_needed(0, false));
    assert!(!pubkey_lookup_needed(1, true));
    assert!(pubkey_lookup_needed(1, false));
    assert!(pubkey_lookup_needed(2, true));
    assert_eq!(MAX_PUBKEY_HASHMAP_SIZE, 1000);
    assert!(!pubkey_cache_must_clear(1000));
    assert!(pubkey_cache_must_clear(1001));
}
