use catscope_edge_generator::primitive::header::AccountHeader;
use catscope_edge_generator::primitive::pubkey::Pubkey;
use catscope_edge_generator::primitive::tree::{FilterEdge, WEIGHT_DIRECT, WEIGHT_PROGRAM, WEIGHT_SYMLINK};
use catscope_edge_generator::raydium::amm::RaydiumAmm;
use catscope_edge_generator::raydium::clmm::RaydiumCLMM;
use catscope_edge_generator::raydium::cpmm::RaydiumCPMM;
use catscope_edge_generator::raydium_clmm::{
    discriminator_amm_config, discriminator_observation_state, discriminator_operation_state,
    discriminator_personal_position_state, discriminator_pool_state,
    discriminator_protocol_position_state, discriminator_support_mint_associated,
    discriminator_tick_array_bitmap_extension, discriminator_tick_array_state, Raydium,
};

fn key(b: u8) -> Pubkey {
    Pubkey::new_from_array([b; 32])
}

fn header(id: Pubkey, slot: u64) -> AccountHeader {
    AccountHeader {
        pubkey: id,
        lamports: 1,
        data_size: 0,
        account_id: 0,
        owner: key(200),
        rent_epoch: 0,
        slot,
        executable: false,
    }
}

fn put(data: &mut [u8], off: usize, k: &Pubkey) {
    data[off..off + 32].copy_from_slice(&k.bytes);
}

fn e(slot: u64, weight: u8, from: Pubkey, to: Pubkey) -> FilterEdge {
    FilterEdge { slot, weight, from, to }
}

fn account(d: [u8; 8], len: usize) -> Vec<u8> {
    let mut data = vec![0u8; len];
    data[..8].copy_from_slice(&d);
    data
}

#[test]
fn raydium_discriminators_have_their_values() {
    assert_eq!(discriminator_amm_config(), [218, 244, 33, 104, 203, 203, 43, 111]);
    assert_eq!(discriminator_observation_state(), [122, 174, 197, 53, 129, 9, 165, 132]);
    assert_eq!(discriminator_operation_state(), [19, 236, 58, 237, 81, 222, 183, 252]);
    assert_eq!(discriminator_personal_position_state(), [70, 111, 150, 126, 230, 15, 25, 117]);
    assert_eq!(discriminator_pool_state(), [247, 237, 227, 245, 215, 195, 222, 70]);
    assert_eq!(discriminator_protocol_position_state(), [100, 226, 145, 99, 146, 218, 160, 106]);
    assert_eq!(discriminator_support_mint_associated(), [134, 40, 183, 79, 12, 112, 162, 53]);
    assert_eq!(discriminator_tick_array_bitmap_extension(), [60, 150, 36, 219, 97, 128, 139, 153]);
    assert_eq!(discriminator_tick_array_state(), [192, 155, 85, 205, 49, 249, 129, 42]);
}

#[test]
fn raydium_amm_config_and_pool_state() {
    let f = Raydium::new(&key(200));
    let id = key(1);
    let mut data = account(discriminator_amm_config(), 117);
    put(&mut data, 11, &key(10));
    // the system program is not skipped here
    let list: Vec<FilterEdge> = f.edge(&header(id, 3), &data).into();
    assert_eq!(list, vec![e(3, WEIGHT_SYMLINK, key(10), id), e(3, WEIGHT_DIRECT, id, key(0))]);

    let mut data = account(discriminator_pool_state(), 1544);
    put(&mut data, 9, &key(20));
    put(&mut data, 41, &key(21));
    put(&mut data, 137, &key(22));
    put(&mut data, 169, &key(23));
    put(&mut data, 201, &key(24));
    let list: Vec<FilterEdge> = f.edge(&header(id, 4), &data).into();
    assert_eq!(
        list,
        vec![
            e(4, WEIGHT_DIRECT, key(20), id),
            e(4, WEIGHT_DIRECT, id, key(21)),
            e(4, WEIGHT_DIRECT, id, key(22)),
            e(4, WEIGHT_DIRECT, id, key(23)),
            e(4, WEIGHT_DIRECT, id, key(24))
        ]
    );
}

#[test]
fn raydium_positions_ticks_observations() {
    let f = Raydium::new(&key(200));
    let id = key(1);
    let mut data = account(discriminator_personal_position_state(), 100);
    put(&mut data, 9, &key(30));
    put(&mut data, 41, &key(31));
    let list: Vec<FilterEdge> = f.edge(&header(id, 1), &data).into();
    assert_eq!(list, vec![e(1, WEIGHT_SYMLINK, key(30), id), e(1, WEIGHT_DIRECT, key(31), id)]);

    let mut data = account(discriminator_protocol_position_state(), 41);
    put(&mut data, 9, &key(32));
    let list: Vec<FilterEdge> = f.edge(&header(id, 1), &data).into();
    assert_eq!(list, vec![e(1, WEIGHT_DIRECT, key(32), id)]);

    let mut data = account(discriminator_tick_array_state(), 40);
    put(&mut data, 8, &key(33));
    let list: Vec<FilterEdge> = f.edge(&header(id, 1), &data).into();
    assert_eq!(list, vec![e(1, WEIGHT_DIRECT, key(33), id)]);

    let mut data = account(discriminator_tick_array_bitmap_extension(), 40);
    put(&mut data, 8, &key(34));
    let list: Vec<FilterEdge> = f.edge(&header(id, 1), &data).into();
    assert_eq!(list, vec![e(1, WEIGHT_DIRECT, key(34), id)]);

    let mut data = account(discriminator_observation_state(), 51);
    put(&mut data, 19, &key(35));
    let list: Vec<FilterEdge> = f.edge(&header(id, 1), &data).into();
    assert_eq!(list, vec![e(1, WEIGHT_DIRECT, key(35), id)]);

    let data = account(discriminator_support_mint_associated(), 8);
    assert!(f.edge(&header(id, 1), &data).is_empty());
}

#[test]
fn raydium_operation_state_lists_non_system_owners_and_mints() {
    let f = Raydium::new(&key(200));
    let id = key(1);
    let mut data = account(discriminator_operation_state(), 9 + 32 * 110);
    assert!(f.readable(&data));
    put(&mut data, 9, &key(40));
    put(&mut data, 9 + 32 * 9, &key(41));
    put(&mut data, 9 + 32 * 10, &key(42));
    put(&mut data, 9 + 32 * 109, &key(43));
    let list: Vec<FilterEdge> = f.edge(&header(id, 6), &data).into();
    assert_eq!(
        list,
        vec![
            e(6, WEIGHT_DIRECT, id, key(40)),
            e(6, WEIGHT_DIRECT, id, key(41)),
            e(6, WEIGHT_DIRECT, id, key(42)),
            e(6, WEIGHT_DIRECT, id, key(43))
        ]
    );
    data.pop();
    assert!(!f.readable(&data));
}

#[test]
fn raydium_amm_v4_pool() {
    let f = RaydiumAmm::new(&key(200));
    let id = key(1);
    let mut data = vec![0u8; 752];
    put(&mut data, 336, &key(50));
    put(&mut data, 368, &key(51));
    put(&mut data, 496, &key(52));
    put(&mut data, 528, &key(53));
    put(&mut data, 592, &key(54));
    put(&mut data, 624, &key(55));
    put(&mut data, 688, &key(56));
    put(&mut data, 400, &key(99)); // coin mint: no edge
    let list: Vec<FilterEdge> = f.edge(&header(id, 2), &data).into();
    let mut expected = vec![e(2, WEIGHT_DIRECT, key(200), id)];
    for b in 50..56 {
        expected.push(e(2, WEIGHT_DIRECT, id, key(b)));
    }
    expected.push(e(2, WEIGHT_DIRECT, key(56), id));
    assert_eq!(list, expected);
    assert!(f.edge(&header(id, 2), &data[..751]).is_empty());
    assert_eq!(f.program_id_list(), vec![key(200)]);
}

#[test]
fn raydium_cpmm_config_and_pool() {
    let f = RaydiumCPMM::new(&key(200));
    let id = key(1);
    let mut data = vec![0u8; 8 + 228];
    put(&mut data, 8 + 36, &key(60));
    put(&mut data, 8 + 68, &key(61));
    let list: Vec<FilterEdge> = f.edge(&header(id, 1), &data).into();
    assert_eq!(
        list,
        vec![
            e(1, WEIGHT_PROGRAM, key(200), id),
            e(1, WEIGHT_DIRECT, key(61), id),
            e(1, WEIGHT_DIRECT, key(60), id)
        ]
    );
    let mut data = vec![0u8; 8 + 629];
    put(&mut data, 8, &key(62));
    put(&mut data, 8 + 32, &key(63));
    put(&mut data, 8 + 64, &key(64));
    put(&mut data, 8 + 96, &key(65));
    put(&mut data, 8 + 288, &key(66));
    let list: Vec<FilterEdge> = f.edge(&header(id, 1), &data).into();
    assert_eq!(
        list,
        vec![
            e(1, WEIGHT_DIRECT, key(62), id),
            e(1, WEIGHT_DIRECT, key(66), id),
            e(1, WEIGHT_DIRECT, id, key(63)),
            e(1, WEIGHT_DIRECT, id, key(64)),
            e(1, WEIGHT_DIRECT, id, key(65))
        ]
    );
    assert!(f.edge(&header(id, 1), &[0u8; 7]).is_empty());
}

#[test]
fn raydium_clmm_pool_and_config() {
    let f = RaydiumCLMM::new(&key(200));
    let id = key(1);
    let mut data = vec![0u8; 8 + 1536];
    put(&mut data, 8 + 1, &key(70));
    put(&mut data, 8 + 33, &key(71));
    put(&mut data, 8 + 129, &key(72));
    put(&mut data, 8 + 161, &key(73));
    // observation key left as the system program: skipped
    let list: Vec<FilterEdge> = f.edge(&header(id, 9), &data).into();
    assert_eq!(
        list,
        vec![
            e(9, WEIGHT_DIRECT, key(70), id),
            e(9, WEIGHT_DIRECT, key(71), id),
            e(9, WEIGHT_DIRECT, id, key(72)),
            e(9, WEIGHT_DIRECT, id, key(73))
        ]
    );
    let mut data = vec![0u8; 8 + 109];
    put(&mut data, 8 + 3, &key(74));
    put(&mut data, 8 + 53, &key(75));
    let list: Vec<FilterEdge> = f.edge(&header(id, 9), &data).into();
    assert_eq!(
        list,
        vec![
            e(9, WEIGHT_PROGRAM, key(200), id),
            e(9, WEIGHT_DIRECT, key(74), id),
            e(9, WEIGHT_DIRECT, key(75), id)
        ]
    );
}
