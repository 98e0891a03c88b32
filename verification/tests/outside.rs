use catscope_edge_generator::primitive::header::AccountHeader;
use catscope_edge_generator::primitive::pubkey::Pubkey;
use catscope_edge_generator::primitive::soltoken::{SolToken, PACKED_MINT_LEN};
use spl_token::solana_program::program_pack::Pack;
use catscope_edge_generator::pumpfun::PUMPFUN_PROGRAM_ID;
use catscope_edge_generator::pumpswap::PUMPSWAP_PROGRAM_ID;
use catscope_edge_generator::sanctum::S_CONTROLLER_PROGRAM_ID;
use catscope_edge_generator::primitive::tree::{
    FilterEdge, WEIGHT_DIRECT, WEIGHT_PROGRAM, WEIGHT_SPLTOKEN_MINT, WEIGHT_SPLTOKEN_OWNER,
};
use catscope_edge_generator::pumpfun::{bonding_curve_discriminator, global_discriminator, Pumpfun};
use catscope_edge_generator::pumpswap::{
    global_config_discriminator, global_volume_accumulator_discriminator, pool_discriminator,
    Pumpswap,
};
use catscope_edge_generator::sanctum::Sanctum;

fn b58(s: &str) -> Pubkey {
    Pubkey::new_from_array(solana_sdk::pubkey::Pubkey::from_str_const(s).to_bytes())
}

fn key(b: u8) -> Pubkey {
    Pubkey::new_from_array([b; 32])
}

fn header(id: Pubkey, owner: Pubkey, slot: u64) -> AccountHeader {
    AccountHeader {
        pubkey: id,
        lamports: 1,
        data_size: 0,
        account_id: 0,
        owner,
        rent_epoch: 0,
        slot,
        executable: false,
    }
}

fn put(data: &mut [u8], off: usize, k: &Pubkey) {
    data[off..off + 32].copy_from_slice(&k.bytes);
}

fn e(slot: u64, weight: u8, from: Pubkey, to: Pubkey) -> FilterEdge {
    FilterEdge { slot, weight, from, to }
}

fn account(d: [u8; 8], len: usize) -> Vec<u8> {
    let mut data = vec![0u8; len];
    data[..8].copy_from_slice(&d);
    data
}

#[test]
fn pumpfun_discriminators_have_their_values() {
    assert_eq!(global_discriminator(), [167, 232, 232, 177, 200, 108, 114, 127]);
    assert_eq!(bonding_curve_discriminator(), [23, 183, 248, 55, 96, 216, 172, 96]);
}

#[test]
fn pumpfun_curves_hang_off_the_global_account() {
    let program = b58("6EF8rrecthR5Dkzon8Nwu78hRvfCKubJ14M5uBEwF6P");
    let global = b58("4wTV1YmiEkRvAtNtsSGPtUrqRYQMe5SKy2uB4Jjaxnjf");
    let f = Pumpfun::try_new(&program).unwrap();
    let id = key(1);
    let list: Vec<FilterEdge> = f.edge(&header(id, program, 3), &account(global_discriminator(), 100)).into();
    assert_eq!(list, vec![e(3, WEIGHT_DIRECT, program, id)]);
    let list: Vec<FilterEdge> =
        f.edge(&header(id, program, 3), &account(bonding_curve_discriminator(), 150)).into();
    assert_eq!(list, vec![e(3, WEIGHT_DIRECT, global, id)]);
    let f2 = Pumpfun::new(&program);
    let list: Vec<FilterEdge> =
        f2.edge(&header(id, program, 3), &account(bonding_curve_discriminator(), 8)).into();
    assert_eq!(list, vec![e(3, WEIGHT_DIRECT, global, id)]);
}

#[test]
fn pumpswap_discriminators_have_their_values() {
    assert_eq!(pool_discriminator(), [241, 154, 109, 4, 17, 177, 109, 188]);
    assert_eq!(global_config_discriminator(), [149, 8, 156, 202, 160, 252, 176, 217]);
    assert_eq!(global_volume_accumulator_discriminator(), [202, 42, 246, 43, 142, 190, 30, 255]);
}

#[test]
fn pumpswap_pool_config_accumulator() {
    let program = b58("pAMMBay6oceH9fJKBRHGP5D4bD4sWpmSwMn52FMfXEA");
    let global_config = b58("ADyA8hdefvWN2dbGGWFotbzWxrAvLW83WG6QCVXvJKqw");
    let f = Pumpswap::try_new(&program).unwrap();
    let id = key(1);
    let mut data = account(pool_discriminator(), 243);
    put(&mut data, 43, &key(99)); // base mint: no edge
    put(&mut data, 107, &key(10));
    put(&mut data, 139, &key(11));
    put(&mut data, 171, &key(12));
    let list: Vec<FilterEdge> = f.edge(&header(id, program, 2), &data).into();
    assert_eq!(
        list,
        vec![
            e(2, WEIGHT_DIRECT, global_config, id),
            e(2, WEIGHT_DIRECT, id, key(10)),
            e(2, WEIGHT_DIRECT, id, key(11)),
            e(2, WEIGHT_DIRECT, id, key(12))
        ]
    );
    let mut data = account(global_config_discriminator(), 353);
    put(&mut data, 8, &key(13));
    let list: Vec<FilterEdge> = f.edge(&header(id, program, 2), &data).into();
    assert_eq!(list, vec![e(2, WEIGHT_DIRECT, program, id), e(2, WEIGHT_DIRECT, id, key(13))]);
    let mut data = account(global_volume_accumulator_discriminator(), 544);
    put(&mut data, 32, &key(14));
    let list: Vec<FilterEdge> = f.edge(&header(id, program, 2), &data).into();
    assert_eq!(list, vec![e(2, WEIGHT_DIRECT, program, id), e(2, WEIGHT_DIRECT, id, key(14))]);
    assert!(!f.readable(&account(pool_discriminator(), 202)));
}

#[test]
fn sanctum_pool_state_and_lst_list_at_their_derived_addresses() {
    let program = b58("5ocnV1qiCgaQR8Jb8xWnVbApfaygJ8tNoZfgPwsgx9kx");
    let pool_state = b58("AYhux5gJzCoeoc1PoJ1VxwPDe22RwcvpHviLDD1oCGvW");
    let lst_list = b58("Gb7m4daakbVbrFLR33FKMDVMHAprRZ66CSYt4bpFwUgS");
    let f = Sanctum::try_new(&program).unwrap();
    let mut data = vec![0u8; 240];
    put(&mut data, 16, &key(10));
    put(&mut data, 48, &key(11));
    put(&mut data, 80, &key(12));
    put(&mut data, 112, &key(13));
    put(&mut data, 144, &key(14));
    put(&mut data, 176, &key(15));
    let list: Vec<FilterEdge> = f.edge(&header(pool_state, program, 1), &data).into();
    assert_eq!(
        list,
        vec![
            e(1, WEIGHT_DIRECT, program, pool_state),
            e(1, WEIGHT_DIRECT, pool_state, key(10)),
            e(1, WEIGHT_DIRECT, pool_state, key(14)),
            e(1, WEIGHT_DIRECT, pool_state, key(13)),
            e(1, WEIGHT_DIRECT, pool_state, key(12)),
            e(1, WEIGHT_DIRECT, pool_state, key(11)),
            e(1, WEIGHT_DIRECT, pool_state, key(15))
        ]
    );
    // version 1: no RPS authority
    let list: Vec<FilterEdge> = f.edge(&header(pool_state, program, 1), &data[..176]).into();
    assert_eq!(list.len(), 6);
    // other sizes, or another address, give nothing
    assert!(f.edge(&header(pool_state, program, 1), &data[..200]).is_empty());
    assert!(f.edge(&header(key(1), program, 1), &data).is_empty());

    let mut data = vec![0u8; 160];
    put(&mut data, 16, &key(20));
    put(&mut data, 48, &key(21));
    put(&mut data, 80 + 16, &key(22));
    let list: Vec<FilterEdge> = f.edge(&header(lst_list, program, 1), &data).into();
    assert_eq!(
        list,
        vec![
            e(1, WEIGHT_DIRECT, pool_state, lst_list),
            e(1, WEIGHT_DIRECT, lst_list, key(20)),
            e(1, WEIGHT_DIRECT, lst_list, key(21)),
            e(1, WEIGHT_DIRECT, lst_list, key(22))
        ]
    );
    assert!(f.edge(&header(lst_list, program, 1), &data[..159]).is_empty());
    assert!(f.edge(&header(lst_list, program, 1), &[]).is_empty());
}

#[test]
fn soltoken_serves_system_token_and_loader_programs() {
    let f = SolToken::default();
    let ids = f.program_id_list();
    assert_eq!(ids.len(), 3);
    assert_eq!(ids[0], Pubkey::new_from_array(solana_sdk::system_program::ID.to_bytes()));
    assert_eq!(ids[0], key(0));
    assert_eq!(ids[1], b58("TokenkegQfeZyiNwAJbNbGKPFXCWuBvf9Ss623VQ5DA"));
    assert_eq!(ids[2], b58("BPFLoader2111111111111111111111111111111111"));
}

#[test]
fn token_account_is_linked_from_its_mint_and_owner() {
    let f = SolToken::default();
    let token = b58("TokenkegQfeZyiNwAJbNbGKPFXCWuBvf9Ss623VQ5DA");
    let id = key(1);
    let mut data = vec![0u8; 165];
    put(&mut data, 0, &key(10));
    put(&mut data, 32, &key(11));
    let list: Vec<FilterEdge> = f.edge(&header(id, token, 4), &data).into();
    assert_eq!(
        list,
        vec![e(4, WEIGHT_SPLTOKEN_MINT, key(10), id), e(4, WEIGHT_SPLTOKEN_OWNER, key(11), id)]
    );
    // system accounts and other owners give nothing
    assert!(f.edge(&header(id, key(0), 4), &data).is_empty());
    assert!(f.edge(&header(id, key(7), 4), &data).is_empty());
}

#[test]
fn mint_sized_data_is_linked_from_its_authorities() {
    let f = SolToken::default();
    let token = b58("TokenkegQfeZyiNwAJbNbGKPFXCWuBvf9Ss623VQ5DA");
    let id = key(1);
    let len = spl_token::state::Mint::LEN;
    assert_eq!(len, PACKED_MINT_LEN);
    assert_eq!(len, 82);
    let mut data = vec![0u8; len];
    data[0] = 1;
    put(&mut data, 4, &key(10));
    data[46] = 1;
    put(&mut data, 50, &key(11));
    let list: Vec<FilterEdge> = f.edge(&header(id, token, 4), &data).into();
    assert_eq!(list, vec![e(4, WEIGHT_PROGRAM, key(10), id), e(4, WEIGHT_PROGRAM, key(11), id)]);
    data[46] = 2;
    let list: Vec<FilterEdge> = f.edge(&header(id, token, 4), &data).into();
    assert_eq!(list, vec![e(4, WEIGHT_PROGRAM, key(10), id)]);
}

#[test]
fn other_lengths_are_not_read_as_mints() {
    let f = SolToken::default();
    let token = b58("TokenkegQfeZyiNwAJbNbGKPFXCWuBvf9Ss623VQ5DA");
    let id = key(1);
    let mut data = vec![0u8; 88];
    data[0] = 1;
    put(&mut data, 4, &key(10));
    data[46] = 1;
    put(&mut data, 50, &key(11));
    assert!(f.edge(&header(id, token, 4), &data).is_empty());
    assert!(f.edge(&header(id, token, 4), &data[..81]).is_empty());
}

#[test]
fn program_id_constants_match_their_base58_ids() {
    assert_eq!(
        Pubkey::new_from_array(PUMPFUN_PROGRAM_ID),
        b58("6EF8rrecthR5Dkzon8Nwu78hRvfCKubJ14M5uBEwF6P")
    );
    assert_eq!(
        Pubkey::new_from_array(PUMPSWAP_PROGRAM_ID),
        b58("pAMMBay6oceH9fJKBRHGP5D4bD4sWpmSwMn52FMfXEA")
    );
    assert_eq!(
        Pubkey::new_from_array(S_CONTROLLER_PROGRAM_ID),
        b58("5ocnV1qiCgaQR8Jb8xWnVbApfaygJ8tNoZfgPwsgx9kx")
    );
}
