use catscope_edge_generator::primitive::header::AccountHeader;
use catscope_edge_generator::primitive::pubkey::Pubkey;
use catscope_edge_generator::primitive::tree::{
    FilterEdge, WEIGHT_DIRECT, WEIGHT_PROGRAM, WEIGHT_SYMLINK,
};
use catscope_edge_generator::solpipe::{
    agent_discriminator, bidlist_discriminator, bidreceipt_discriminator, controller_discriminator,
    controllerapi_discriminator, payout_discriminator, periodring_discriminator,
    pipeline_discriminator, protocol_discriminator, refunds_discriminator, BidList, Refunds,
    Solpipe, CLAIM_HEADER_SIZE, CLAIM_SIZE,
};

fn key(b: u8) -> Pubkey {
    Pubkey::new_from_array([b; 32])
}

fn header(id: Pubkey, slot: u64) -> AccountHeader {
    AccountHeader {
        pubkey: id,
        lamports: 1,
        data_size: 0,
        account_id: 0,
        owner: key(200),
        rent_epoch: 0,
        slot,
        executable: false,
    }
}

fn put(data: &mut [u8], off: usize, k: &Pubkey) {
    data[off..off + 32].copy_from_slice(&k.bytes);
}

fn e(slot: u64, weight: u8, from: Pubkey, to: Pubkey) -> FilterEdge {
    FilterEdge { slot, weight, from, to }
}

fn account(d: [u8; 8], len: usize) -> Vec<u8> {
    let mut data = vec![0u8; len];
    data[..8].copy_from_slice(&d);
    data
}

#[test]
fn solpipe_discriminators_have_their_values() {
    assert_eq!(agent_discriminator(), [47, 166, 112, 147, 155, 197, 86, 7]);
    assert_eq!(bidlist_discriminator(), [233, 127, 13, 29, 123, 209, 192, 79]);
    assert_eq!(refunds_discriminator(), [169, 83, 174, 99, 135, 161, 12, 150]);
    assert_eq!(controller_discriminator(), [184, 79, 171, 0, 183, 43, 113, 110]);
    assert_eq!(controllerapi_discriminator(), [224, 136, 168, 42, 53, 0, 84, 163]);
    assert_eq!(payout_discriminator(), [69, 45, 245, 131, 218, 101, 158, 228]);
    assert_eq!(periodring_discriminator(), [61, 191, 59, 143, 226, 235, 104, 26]);
    assert_eq!(pipeline_discriminator(), [30, 82, 16, 218, 196, 77, 115, 224]);
    assert_eq!(protocol_discriminator(), [45, 39, 101, 43, 115, 72, 131, 40]);
    assert_eq!(bidreceipt_discriminator(), [186, 150, 141, 135, 59, 122, 39, 99]);
}

#[test]
fn controller_links_program_and_admin() {
    let f = Solpipe::new(&key(200));
    let id = key(1);
    let mut data = account(controller_discriminator(), 8 + 177);
    put(&mut data, 9, &key(10));
    assert!(f.readable(&data));
    let list: Vec<FilterEdge> = f.edge(&header(id, 7), &data).into();
    assert_eq!(list, vec![e(7, WEIGHT_PROGRAM, key(200), id), e(7, WEIGHT_DIRECT, id, key(10))]);
}

#[test]
fn short_controller_is_not_readable() {
    let f = Solpipe::new(&key(200));
    let data = account(controller_discriminator(), 8 + 176);
    assert!(!f.readable(&data));
}

#[test]
fn controller_api_pipeline_payout_period_ring_agent() {
    let f = Solpipe::new(&key(200));
    let id = key(1);

    let mut data = account(controllerapi_discriminator(), 41);
    put(&mut data, 9, &key(10));
    let list: Vec<FilterEdge> = f.edge(&header(id, 1), &data).into();
    assert_eq!(list, vec![e(1, WEIGHT_DIRECT, key(10), id)]);

    let mut data = account(pipeline_discriminator(), 106);
    put(&mut data, 8, &key(11));
    put(&mut data, 8 + 66, &key(12));
    let list: Vec<FilterEdge> = f.edge(&header(id, 2), &data).into();
    assert_eq!(list, vec![e(2, WEIGHT_DIRECT, key(11), id), e(2, WEIGHT_SYMLINK, id, key(12))]);

    let mut data = account(payout_discriminator(), 74);
    put(&mut data, 8 + 34, &key(13));
    let list: Vec<FilterEdge> = f.edge(&header(id, 3), &data).into();
    assert_eq!(list, vec![e(3, WEIGHT_DIRECT, key(13), id)]);

    let mut data = account(periodring_discriminator(), 40);
    put(&mut data, 8, &key(14));
    let list: Vec<FilterEdge> = f.edge(&header(id, 4), &data).into();
    assert_eq!(list, vec![e(4, WEIGHT_DIRECT, key(14), id)]);

    let mut data = account(agent_discriminator(), 137);
    put(&mut data, 9, &key(15));
    put(&mut data, 41, &key(16));
    put(&mut data, 105, &key(17));
    let list: Vec<FilterEdge> = f.edge(&header(id, 5), &data).into();
    assert_eq!(
        list,
        vec![
            e(5, WEIGHT_DIRECT, key(15), id),
            e(5, WEIGHT_DIRECT, id, key(16)),
            e(5, WEIGHT_DIRECT, id, key(17))
        ]
    );
}

fn refunds_body(pipeline: &Pubkey, claims: &[(Pubkey, u64)]) -> Vec<u8> {
    let mut body = pipeline.bytes.to_vec();
    body.extend_from_slice(&(claims.len() as u32).to_le_bytes());
    for (bidder, balance) in claims {
        body.extend_from_slice(&bidder.bytes);
        body.extend_from_slice(&balance.to_le_bytes());
    }
    body
}

#[test]
fn refunds_count_and_parse() {
    let body = refunds_body(&key(1), &[(key(2), 5), (key(3), 0), (key(4), u64::MAX)]);
    assert_eq!(CLAIM_HEADER_SIZE, 36);
    assert_eq!(CLAIM_SIZE, 40);
    assert_eq!(Refunds::count(&body), Some(3));
    let c = Refunds::parse(&body, 2);
    assert_eq!(c.bidder, key(4));
    assert_eq!(c.balance, u64::MAX);
    assert_eq!(Refunds::parse(&body, 0).balance, 5);
    // missing the last byte of the last claim
    assert_eq!(Refunds::count(&body[..body.len() - 1]), None);
    // shorter than the header
    assert_eq!(Refunds::count(&body[..35]), None);
    assert_eq!(Refunds::count(&refunds_body(&key(1), &[])), Some(0));
}

#[test]
fn refunds_count_with_huge_claim_count_is_none() {
    let mut body = key(1).bytes.to_vec();
    body.extend_from_slice(&u32::MAX.to_le_bytes());
    assert_eq!(Refunds::count(&body), None);
}

#[test]
fn refunds_account_links_pipeline_and_positive_claims() {
    let f = Solpipe::new(&key(200));
    let id = key(1);
    let mut data = refunds_discriminator().to_vec();
    data.extend(refunds_body(&key(9), &[(key(2), 5), (key(3), 0), (key(4), 1)]));
    let list: Vec<FilterEdge> = f.edge(&header(id, 8), &data).into();
    assert_eq!(
        list,
        vec![
            e(8, WEIGHT_DIRECT, key(9), id),
            e(8, WEIGHT_SYMLINK, id, key(2)),
            e(8, WEIGHT_SYMLINK, id, key(4))
        ]
    );
    // truncated claims: only the pipeline edge
    let list: Vec<FilterEdge> = f.edge(&header(id, 8), &data[..data.len() - 1]).into();
    assert_eq!(list, vec![e(8, WEIGHT_DIRECT, key(9), id)]);
}

fn bidlist_body(finished: bool, payout: &Pubkey, bids: &[(bool, Pubkey, u64)], total: u64) -> Vec<u8> {
    let mut body = vec![finished as u8];
    body.extend_from_slice(&payout.bytes);
    body.extend_from_slice(&(bids.len() as u32).to_le_bytes());
    for (blank, bidder, deposit) in bids {
        body.push(*blank as u8);
        body.extend_from_slice(&bidder.bytes);
        body.extend_from_slice(&deposit.to_le_bytes());
    }
    body.extend_from_slice(&total.to_le_bytes());
    body
}

#[test]
fn bidlist_parse_reads_every_field() {
    let body = bidlist_body(true, &key(5), &[(false, key(6), 10), (true, key(7), 20)], 30);
    let b = BidList::parse(&body).unwrap();
    assert!(b.bidding_finished);
    assert_eq!(b.payout, key(5));
    assert_eq!(b.book.len(), 2);
    assert!(!b.book[0].is_blank);
    assert_eq!(b.book[0].bidder, key(6));
    assert_eq!(b.book[0].deposit, 10);
    assert!(b.book[1].is_blank);
    assert_eq!(b.book[1].deposit, 20);
    assert_eq!(b.total_deposits, 30);
}

#[test]
fn bidlist_parse_rejects_truncated_data() {
    let body = bidlist_body(false, &key(5), &[(false, key(6), 10)], 30);
    assert!(BidList::parse(&body[..body.len() - 1]).is_none());
    assert!(BidList::parse(&body[..36]).is_none());
    assert!(BidList::parse(&body[..37 + 40]).is_none());
    let empty = bidlist_body(false, &key(5), &[], 0);
    let b = BidList::parse(&empty).unwrap();
    assert!(b.book.is_empty());
}

#[test]
fn bidlist_account_links_payout_and_non_blank_bidders() {
    let f = Solpipe::new(&key(200));
    let id = key(1);
    let mut data = bidlist_discriminator().to_vec();
    data.extend(bidlist_body(false, &key(5), &[(false, key(6), 1), (true, key(7), 2), (false, key(8), 3)], 6));
    let list: Vec<FilterEdge> = f.edge(&header(id, 2), &data).into();
    assert_eq!(
        list,
        vec![
            e(2, WEIGHT_DIRECT, key(5), id),
            e(2, WEIGHT_SYMLINK, key(6), id),
            e(2, WEIGHT_SYMLINK, key(8), id)
        ]
    );
    // a truncated list gives no edge at all
    assert!(f.edge(&header(id, 2), &data[..data.len() - 1]).is_empty());
}

#[test]
fn short_or_unknown_data_gives_nothing() {
    let f = Solpipe::new(&key(200));
    assert!(f.edge(&header(key(1), 1), &[1, 2, 3]).is_empty());
    assert!(f.edge(&header(key(1), 1), &account(protocol_discriminator(), 300)).is_empty());
    assert_eq!(f.program_id_list(), vec![key(200)]);
}

#[test]
fn bidlist_round_trip_ignores_trailing_bytes() {
    let bids = [(false, key(6), u64::MAX), (true, key(7), 0), (false, key(8), 0x0102_0304_0506_0708)];
    let mut body = bidlist_body(false, &key(5), &bids, 0xdead_beef_0000_0001);
    body.extend_from_slice(&[0xff; 13]);
    let b = BidList::parse(&body).unwrap();
    assert!(!b.bidding_finished);
    assert_eq!(b.payout, key(5));
    assert_eq!(b.book.len(), bids.len());
    for (k, (blank, bidder, deposit)) in bids.iter().enumerate() {
        assert_eq!(b.book[k].is_blank, *blank);
        assert_eq!(b.book[k].bidder, *bidder);
        assert_eq!(b.book[k].deposit, *deposit);
    }
    assert_eq!(b.total_deposits, 0xdead_beef_0000_0001);
}
