use catscope_edge_generator::infitnity::Infinity;
use catscope_edge_generator::kamino::Kamino;
use catscope_edge_generator::kvault::{
    global_config_discriminator as kvault_global_config_discriminator,
    reserve_whitelist_entry_discriminator, vault_state_discriminator, Kvault,
};
use catscope_edge_generator::meteora::{
    bin_array_discriminator, lb_pair_discriminator, position_discriminator,
    position_v2_discriminator, Meteora,
};
use catscope_edge_generator::primitive::header::AccountHeader;
use catscope_edge_generator::primitive::pubkey::Pubkey;
use catscope_edge_generator::primitive::tree::{FilterEdge, WEIGHT_DIRECT, WEIGHT_PROGRAM};
use catscope_edge_generator::s::flat_fee::FlatFeePricing;
use catscope_edge_generator::safejar::{
    controller_discriminator, delegation_discriminator, ruleaccumulator_discriminator,
    spendrequest_discriminator, Safejar,
};
use catscope_edge_generator::stake_pool::StakePool;

fn key(b: u8) -> Pubkey {
    Pubkey::new_from_array([b; 32])
}

fn header(id: Pubkey, owner: Pubkey, slot: u64) -> AccountHeader {
    AccountHeader {
        pubkey: id,
        lamports: 1,
        data_size: 0,
        account_id: 0,
        owner,
        rent_epoch: 0,
        slot,
        executable: false,
    }
}

fn put(data: &mut [u8], off: usize, k: &Pubkey) {
    data[off..off + 32].copy_from_slice(&k.bytes);
}

fn e(slot: u64, weight: u8, from: Pubkey, to: Pubkey) -> FilterEdge {
    FilterEdge { slot, weight, from, to }
}

fn account(d: [u8; 8], len: usize) -> Vec<u8> {
    let mut data = vec![0u8; len];
    data[..8].copy_from_slice(&d);
    data
}

#[test]
fn meteora_discriminators_have_their_values() {
    assert_eq!(lb_pair_discriminator(), [33, 11, 49, 98, 181, 101, 177, 13]);
    assert_eq!(position_discriminator(), [170, 188, 143, 228, 122, 64, 248, 208]);
    assert_eq!(position_v2_discriminator(), [117, 180, 212, 199, 245, 180, 133, 182]);
    assert_eq!(bin_array_discriminator(), [92, 142, 92, 220, 5, 148, 70, 91]);
}

#[test]
fn meteora_pair_position_bin_array() {
    let f = Meteora::new(&key(200));
    let id = key(1);
    let mut data = account(lb_pair_discriminator(), 904);
    put(&mut data, 40, &key(10));
    put(&mut data, 72, &key(11));
    put(&mut data, 136, &key(13));
    put(&mut data, 168, &key(14));
    let list: Vec<FilterEdge> = f.edge(&header(id, key(200), 3), &data).into();
    assert_eq!(
        list,
        vec![
            e(3, WEIGHT_DIRECT, id, key(10)),
            e(3, WEIGHT_DIRECT, id, key(11)),
            e(3, WEIGHT_DIRECT, id, key(13)),
            e(3, WEIGHT_DIRECT, id, key(14))
        ]
    );
    for d in [position_discriminator(), position_v2_discriminator()] {
        let mut data = account(d, 72);
        put(&mut data, 8, &key(20));
        put(&mut data, 40, &key(21));
        let list: Vec<FilterEdge> = f.edge(&header(id, key(200), 3), &data).into();
        assert_eq!(list, vec![e(3, WEIGHT_DIRECT, key(20), id), e(3, WEIGHT_DIRECT, id, key(21))]);
    }
    let mut data = account(bin_array_discriminator(), 40);
    put(&mut data, 8, &key(22));
    let list: Vec<FilterEdge> = f.edge(&header(id, key(200), 3), &data).into();
    assert_eq!(list, vec![e(3, WEIGHT_DIRECT, key(22), id)]);
    assert!(!f.readable(&account(lb_pair_discriminator(), 199)));
}

#[test]
fn kvault_discriminators_have_their_values() {
    assert_eq!(kvault_global_config_discriminator(), [149, 8, 156, 202, 160, 252, 176, 217]);
    assert_eq!(vault_state_discriminator(), [228, 196, 82, 165, 98, 210, 235, 152]);
    assert_eq!(reserve_whitelist_entry_discriminator(), [135, 130, 156, 210, 58, 58, 91, 170]);
}

#[test]
fn kvault_global_config_links_program_and_admin() {
    let f = Kvault::new(&key(200));
    let id = key(1);
    let mut data = account(kvault_global_config_discriminator(), 1032);
    put(&mut data, 8, &key(10));
    let list: Vec<FilterEdge> = f.edge(&header(id, key(200), 2), &data).into();
    assert_eq!(list, vec![e(2, WEIGHT_DIRECT, key(200), id), e(2, WEIGHT_DIRECT, id, key(10))]);
    // a system-program admin gives no edge
    put(&mut data, 8, &key(0));
    let list: Vec<FilterEdge> = f.edge(&header(id, key(200), 2), &data).into();
    assert_eq!(list, vec![e(2, WEIGHT_DIRECT, key(200), id)]);
    // too short to hold the admin: only the program edge, no panic
    let data = account(kvault_global_config_discriminator(), 39);
    let list: Vec<FilterEdge> = f.edge(&header(id, key(200), 2), &data).into();
    assert_eq!(list, vec![e(2, WEIGHT_DIRECT, key(200), id)]);
}

#[test]
fn kvault_vault_state_links_token_vault_and_allocation_vaults() {
    let f = Kvault::new(&key(200));
    let id = key(1);
    let len = 312 + 25 * 2160;
    let mut data = account(vault_state_discriminator(), len);
    put(&mut data, 120, &key(10));
    put(&mut data, 184, &key(99)); // shares mint: no edge
    put(&mut data, 312, &key(98)); // reserve: no edge
    put(&mut data, 312 + 32, &key(11));
    put(&mut data, 312 + 24 * 2160 + 32, &key(12));
    let list: Vec<FilterEdge> = f.edge(&header(id, key(200), 2), &data).into();
    assert_eq!(
        list,
        vec![
            e(2, WEIGHT_DIRECT, key(200), id),
            e(2, WEIGHT_DIRECT, id, key(10)),
            e(2, WEIGHT_DIRECT, id, key(11)),
            e(2, WEIGHT_DIRECT, id, key(12))
        ]
    );
    // the last allocation's vault is cut off: it is skipped
    let cut = 312 + 24 * 2160 + 32 + 31;
    let list: Vec<FilterEdge> = f.edge(&header(id, key(200), 2), &data[..cut]).into();
    assert_eq!(list.len(), 3);
    let data = account(reserve_whitelist_entry_discriminator(), 136);
    let list: Vec<FilterEdge> = f.edge(&header(id, key(200), 2), &data).into();
    assert_eq!(list, vec![e(2, WEIGHT_DIRECT, key(200), id)]);
}

#[test]
fn kamino_lending_market_and_reserve() {
    let f = Kamino::new(&key(200));
    let id = key(1);
    let mut data = vec![0u8; 8 + 4656];
    put(&mut data, 8 + 16, &key(10));
    put(&mut data, 8 + 152, &key(11));
    put(&mut data, 8 + 3392, &key(12));
    let list: Vec<FilterEdge> = f.edge(&header(id, key(200), 4), &data).into();
    assert_eq!(
        list,
        vec![
            e(4, WEIGHT_DIRECT, key(200), id),
            e(4, WEIGHT_DIRECT, key(10), id),
            e(4, WEIGHT_DIRECT, key(11), id),
            e(4, WEIGHT_DIRECT, key(12), id)
        ]
    );
    let mut data = vec![0u8; 8 + 8616];
    put(&mut data, 8 + 24, &key(20));
    put(&mut data, 8 + 56, &key(21));
    put(&mut data, 8 + 88, &key(22));
    put(&mut data, 8 + 152, &key(23));
    put(&mut data, 8 + 184, &key(24));
    put(&mut data, 8 + 2592, &key(25));
    let list: Vec<FilterEdge> = f.edge(&header(id, key(200), 4), &data).into();
    assert_eq!(
        list,
        vec![
            e(4, WEIGHT_DIRECT, key(20), id),
            e(4, WEIGHT_DIRECT, id, key(22)),
            e(4, WEIGHT_DIRECT, id, key(21)),
            e(4, WEIGHT_DIRECT, id, key(23)),
            e(4, WEIGHT_DIRECT, id, key(24)),
            e(4, WEIGHT_DIRECT, id, key(25))
        ]
    );
    assert!(f.edge(&header(id, key(200), 4), &[1u8; 100]).is_empty());
}

#[test]
fn safejar_discriminators_have_their_values() {
    assert_eq!(controller_discriminator(), [184, 79, 171, 0, 183, 43, 113, 110]);
    assert_eq!(delegation_discriminator(), [237, 90, 140, 159, 124, 255, 243, 80]);
    assert_eq!(ruleaccumulator_discriminator(), [127, 132, 189, 170, 68, 38, 206, 135]);
    assert_eq!(spendrequest_discriminator(), [71, 251, 215, 71, 98, 153, 90, 25]);
}

#[test]
fn safejar_controller_and_delegation() {
    let f = Safejar::new(&key(200));
    let id = key(1);
    let mut data = account(controller_discriminator(), 41);
    put(&mut data, 9, &key(10));
    let list: Vec<FilterEdge> = f.edge(&header(id, key(200), 5), &data).into();
    assert_eq!(list, vec![e(5, WEIGHT_PROGRAM, key(200), id), e(5, WEIGHT_DIRECT, id, key(10))]);
    let mut data = account(delegation_discriminator(), 41);
    put(&mut data, 9, &key(11));
    let list: Vec<FilterEdge> = f.edge(&header(id, key(200), 5), &data).into();
    assert_eq!(list, vec![e(5, WEIGHT_DIRECT, key(11), id)]);
    assert!(!f.readable(&account(delegation_discriminator(), 40)));
    assert!(f.readable(&account(spendrequest_discriminator(), 8)));
}

#[test]
fn flat_fee_program_and_owned_accounts() {
    let f = FlatFeePricing::new(&key(200));
    let list: Vec<FilterEdge> = f.edge(&header(key(200), key(9), 1), &[]).into();
    assert_eq!(list, vec![e(1, WEIGHT_DIRECT, key(200), key(200))]);
    let list: Vec<FilterEdge> = f.edge(&header(key(1), key(200), 1), &[]).into();
    assert_eq!(list, vec![e(1, WEIGHT_DIRECT, key(200), key(1))]);
    assert!(f.edge(&header(key(1), key(2), 1), &[]).is_empty());
}

#[test]
fn stake_pool_account_links_program_and_its_addresses() {
    let f = StakePool::new(&key(200));
    let id = key(1);
    let mut data = vec![0u8; 258];
    data[0] = 1;
    let offsets = [1usize, 33, 65, 98, 130, 162, 194, 226];
    for (i, off) in offsets.iter().enumerate() {
        put(&mut data, *off, &key(10 + i as u8));
    }
    let list: Vec<FilterEdge> = f.edge(&header(id, key(200), 2), &data).into();
    let mut expected = vec![e(2, WEIGHT_PROGRAM, key(200), id)];
    for i in 0..8u8 {
        expected.push(e(2, WEIGHT_DIRECT, id, key(10 + i)));
    }
    assert_eq!(list, expected);
    // cut after the validator list: the later addresses are missing
    let list: Vec<FilterEdge> = f.edge(&header(id, key(200), 2), &data[..130]).into();
    assert_eq!(list.len(), 5);
}

#[test]
fn validator_list_links_declared_vote_accounts_that_are_present() {
    let f = StakePool::new(&key(200));
    let id = key(1);
    let mut data = vec![0u8; 37];
    data[0] = 2;
    data[33..37].copy_from_slice(&3u32.to_le_bytes());
    for b in 0..2u8 {
        let mut entry = vec![0u8; 72];
        entry[..32].copy_from_slice(&key(50 + b).bytes);
        data.extend(entry);
    }
    // the third declared entry is missing
    let list: Vec<FilterEdge> = f.edge(&header(id, key(200), 2), &data).into();
    assert_eq!(
        list,
        vec![
            e(2, WEIGHT_PROGRAM, key(200), id),
            e(2, WEIGHT_DIRECT, id, key(50)),
            e(2, WEIGHT_DIRECT, id, key(51))
        ]
    );
    // no count: only the program edge
    let list: Vec<FilterEdge> = f.edge(&header(id, key(200), 2), &data[..36]).into();
    assert_eq!(list, vec![e(2, WEIGHT_PROGRAM, key(200), id)]);
    assert!(f.edge(&header(id, key(200), 2), &[]).is_empty());
    assert!(f.edge(&header(id, key(200), 2), &[3, 1, 1]).is_empty());
}

#[test]
fn infinity_controller_pool_state_and_lst_entry() {
    let f = Infinity::new(&key(200), &key(201), &key(202), &key(203));
    let list: Vec<FilterEdge> = f.edge(&header(key(201), key(200), 1), &[]).into();
    assert_eq!(
        list,
        vec![
            e(1, WEIGHT_DIRECT, key(200), key(201)),
            e(1, WEIGHT_DIRECT, key(201), key(202)),
            e(1, WEIGHT_DIRECT, key(201), key(203))
        ]
    );
    let mut data = vec![0u8; 176];
    for i in 0..5u8 {
        put(&mut data, 16 + 32 * i as usize, &key(10 + i));
    }
    assert!(f.readable(&header(key(202), key(200), 1), &data));
    assert!(!f.readable(&header(key(202), key(200), 1), &data[..175]));
    let list: Vec<FilterEdge> = f.edge(&header(key(202), key(200), 1), &data).into();
    let expected: Vec<FilterEdge> = (0..5u8).map(|i| e(1, WEIGHT_DIRECT, key(202), key(10 + i))).collect();
    assert_eq!(list, expected);
    // the LST list: every whole 80-byte entry gives its two edges
    let mut data = vec![0u8; 170];
    put(&mut data, 16, &key(30));
    put(&mut data, 48, &key(31));
    put(&mut data, 96, &key(32));
    put(&mut data, 128, &key(33));
    let list: Vec<FilterEdge> = f.edge(&header(key(203), key(200), 1), &data).into();
    assert_eq!(
        list,
        vec![
            e(1, WEIGHT_DIRECT, key(203), key(30)),
            e(1, WEIGHT_DIRECT, key(30), key(31)),
            e(1, WEIGHT_DIRECT, key(203), key(32)),
            e(1, WEIGHT_DIRECT, key(32), key(33))
        ]
    );
    assert_eq!(f.edge(&header(key(203), key(200), 1), &data[..159]).len(), 2);
    assert!(f.edge(&header(key(203), key(200), 1), &data[..79]).is_empty());
    // any other account that is not a pool reserve gives nothing
    assert!(f.edge(&header(key(5), key(200), 1), &data).is_empty());
}

fn token_account(mint: &Pubkey, owner: &Pubkey) -> Vec<u8> {
    let mut data = vec![0u8; 165];
    put(&mut data, 0, mint);
    put(&mut data, 32, owner);
    data[108] = 1; // initialized
    data
}

#[test]
fn infinity_pool_reserve_is_linked_from_pool_state_and_to_its_mint() {
    let f = Infinity::new(&key(200), &key(201), &key(202), &key(203));
    let token = Pubkey::new_from_array(spl_token::ID.to_bytes());
    let id = key(7);
    let data = token_account(&key(40), &key(202));
    let list: Vec<FilterEdge> = f.edge(&header(id, token, 3), &data).into();
    assert_eq!(list, vec![e(3, WEIGHT_DIRECT, key(202), id), e(3, WEIGHT_DIRECT, id, key(40))]);
    // owned by another account, not owned by the token program, or not
    // accepted by `Account::unpack`: nothing
    let other = token_account(&key(40), &key(9));
    assert!(f.edge(&header(id, token, 3), &other).is_empty());
    assert!(f.edge(&header(id, key(200), 3), &data).is_empty());
    let mut frozen_bad = data.clone();
    frozen_bad[108] = 0;
    assert!(f.edge(&header(id, token, 3), &frozen_bad).is_empty());
    let mut bad_tag = data.clone();
    bad_tag[72] = 2;
    assert!(f.edge(&header(id, token, 3), &bad_tag).is_empty());
    assert!(f.edge(&header(id, token, 3), &data[..164]).is_empty());
}
