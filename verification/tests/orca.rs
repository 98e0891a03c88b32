use catscope_edge_generator::orca::{
    tickarray_discriminator, whirlpool_discriminator, whirlpoolconfig_discriminator, Orca,
};
use catscope_edge_generator::primitive::header::AccountHeader;
use catscope_edge_generator::primitive::pubkey::Pubkey;
use catscope_edge_generator::primitive::tree::{FilterEdge, WEIGHT_DIRECT};

fn key(b: u8) -> Pubkey {
    Pubkey::new_from_array([b; 32])
}

fn header(id: Pubkey, owner: Pubkey, slot: u64, len: usize) -> AccountHeader {
    AccountHeader {
        pubkey: id,
        lamports: 488832,
        data_size: len as u32,
        account_id: 100432,
        owner,
        rent_epoch: 1,
        slot,
        executable: false,
    }
}

fn put(data: &mut [u8], off: usize, k: &Pubkey) {
    data[off..off + 32].copy_from_slice(&k.bytes);
}

fn edge(slot: u64, from: Pubkey, to: Pubkey) -> FilterEdge {
    FilterEdge { slot, weight: WEIGHT_DIRECT, from, to }
}

#[test]
fn orca_discriminators_have_their_values() {
    assert_eq!(whirlpoolconfig_discriminator(), [0x9d, 0x14, 0x31, 0xe0, 0xd9, 0x57, 0xc1, 0xfe]);
    assert_eq!(whirlpool_discriminator(), [0x3f, 0x95, 0xd1, 0x0c, 0xe1, 0x80, 0x63, 0x09]);
    assert_eq!(tickarray_discriminator(), [0x45, 0x61, 0xbd, 0xbe, 0x6e, 0x07, 0x42, 0xbb]);
}

#[test]
fn whirlpool_config_links_program_and_three_authorities() {
    let program = key(200);
    let id = key(1);
    let mut data = vec![0u8; 108];
    data[..8].copy_from_slice(&whirlpoolconfig_discriminator());
    put(&mut data, 8, &key(10));
    put(&mut data, 40, &key(11));
    put(&mut data, 72, &key(12));
    let filter = Orca::new(&program);
    assert!(filter.readable(&data));
    let list: Vec<FilterEdge> = filter.edge(&header(id, program, 9, data.len()), &data).into();
    assert_eq!(
        list,
        vec![edge(9, program, id), edge(9, id, key(10)), edge(9, id, key(11)), edge(9, id, key(12))]
    );
}

#[test]
fn whirlpool_config_skips_system_program_authorities() {
    let program = key(200);
    let id = key(1);
    let mut data = vec![0u8; 108];
    data[..8].copy_from_slice(&whirlpoolconfig_discriminator());
    put(&mut data, 40, &key(11));
    let list: Vec<FilterEdge> = Orca::new(&program).edge(&header(id, program, 9, 108), &data).into();
    assert_eq!(list, vec![edge(9, program, id), edge(9, id, key(11))]);
}

#[test]
fn whirlpool_links_config_and_two_vaults() {
    let program = key(200);
    let id = key(1);
    let mut data = vec![0u8; 653];
    data[..8].copy_from_slice(&whirlpool_discriminator());
    put(&mut data, 8, &key(20));
    put(&mut data, 101, &key(99)); // token mint A is not an edge
    put(&mut data, 133, &key(21));
    put(&mut data, 213, &key(22));
    let list: Vec<FilterEdge> = Orca::new(&program).edge(&header(id, program, 3, 653), &data).into();
    assert_eq!(list.len(), 3, "whirlpool must have 3 edges");
    assert_eq!(list, vec![edge(3, key(20), id), edge(3, id, key(21)), edge(3, id, key(22))]);
}

#[test]
fn tick_array_is_linked_from_the_whirlpool_in_its_last_bytes() {
    let program = key(200);
    let id = key(1);
    let mut data = vec![5u8; 9988];
    data[..8].copy_from_slice(&tickarray_discriminator());
    put(&mut data, 9988 - 32, &key(30));
    let list: Vec<FilterEdge> = Orca::new(&program).edge(&header(id, program, 4, 9988), &data).into();
    assert_eq!(list, vec![edge(4, key(30), id)]);
}

#[test]
fn unknown_and_short_accounts_give_no_edge() {
    let program = key(200);
    let filter = Orca::new(&program);
    let data = vec![1u8; 300];
    assert!(filter.edge(&header(key(1), program, 1, 300), &data).is_empty());
    assert!(filter.edge(&header(key(1), program, 1, 0), &[]).is_empty());
}

#[test]
fn short_whirlpool_is_not_readable() {
    let filter = Orca::new(&key(200));
    let mut data = vec![0u8; 244];
    data[..8].copy_from_slice(&whirlpool_discriminator());
    assert!(!filter.readable(&data));
    data.push(0);
    assert!(filter.readable(&data));
}

#[test]
fn program_id_list_is_the_program() {
    let filter = Orca::new(&key(200));
    assert_eq!(filter.program_id_list(), vec![key(200)]);
    assert_eq!(filter.program_id, key(200));
}
