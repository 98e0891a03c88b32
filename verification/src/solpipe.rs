//! Filter for the Solpipe program, and the layouts of its bid list and refunds accounts.
use std::collections::VecDeque;
use vstd::prelude::*;
use vstd::slice::slice_subrange;

use crate::primitive::common::{
    has_discriminator, le_u32_at, le_u64_at, match_discriminator, read_u32_le, read_u64_le,
    PUBKEY_LEN, U32_LEN, U64_LEN,
};
use crate::primitive::header::AccountHeader;
use crate::primitive::provenance::{edges_sound, group_sound, lemma_sound_after_prefix};
use crate::primitive::pubkey::{key_at, Pubkey};
use crate::primitive::tree::{
    edges_view, in_from, link, out_to, push_in, push_link, push_out, EdgeView, FilterEdge,
    WEIGHT_DIRECT, WEIGHT_PROGRAM, WEIGHT_SYMLINK,
};
use crate::DISCRIMINATOR_SIZE;

verus! {

/// Discriminator of the `Agent` account.
pub open spec fn agent_disc() -> Seq<u8> {
    seq![47u8, 166, 112, 147, 155, 197, 86, 7]
}

/// Discriminator of the `BidList` account.
pub open spec fn bidlist_disc() -> Seq<u8> {
    seq![233u8, 127, 13, 29, 123, 209, 192, 79]
}

/// Discriminator of the `Refunds` account.
pub open spec fn refunds_disc() -> Seq<u8> {
    seq![169u8, 83, 174, 99, 135, 161, 12, 150]
}

/// Discriminator of the `Controller` account.
pub open spec fn controller_disc() -> Seq<u8> {
    seq![184u8, 79, 171, 0, 183, 43, 113, 110]
}

/// Discriminator of the `ControllerApi` account.
pub open spec fn controllerapi_disc() -> Seq<u8> {
    seq![224u8, 136, 168, 42, 53, 0, 84, 163]
}

/// Discriminator of the `Payout` account.
pub open spec fn payout_disc() -> Seq<u8> {
    seq![69u8, 45, 245, 131, 218, 101, 158, 228]
}

/// Discriminator of the `PeriodRing` account.
pub open spec fn periodring_disc() -> Seq<u8> {
    seq![61u8, 191, 59, 143, 226, 235, 104, 26]
}

/// Discriminator of the `Pipeline` account.
pub open spec fn pipeline_disc() -> Seq<u8> {
    seq![30u8, 82, 16, 218, 196, 77, 115, 224]
}

/// Discriminator of the `Protocol` account.
pub open spec fn protocol_disc() -> Seq<u8> {
    seq![45u8, 39, 101, 43, 115, 72, 131, 40]
}

/// Discriminator of the `BidReceipt` account.
pub open spec fn bidreceipt_disc() -> Seq<u8> {
    seq![186u8, 150, 141, 135, 59, 122, 39, 99]
}

// ---------------------------------------------------------------------------
// Bid list: [bidding_finished: u8][payout: 32][n: u32 LE][n x (is_blank: u8,
// bidder: 32, deposit: u64 LE)][total_deposits: u64 LE]
// ---------------------------------------------------------------------------

/// Offset of the first bid in a bid list.
pub open spec fn bid_base() -> int {
    37
}

/// Size in bytes of one bid.
pub open spec fn bid_size() -> int {
    41
}

/// The number of bids that a bid list declares.
pub open spec fn bidlist_count(data: Seq<u8>) -> int {
    le_u32_at(data, 33)
}

/// Whether the data holds a whole bid list: header, every declared bid, and the total.
pub open spec fn bidlist_fits(data: Seq<u8>) -> bool {
    data.len() >= 37 && data.len() >= bid_base() + bid_size() * bidlist_count(data) + 8
}

/// Whether bid `k` is blank (its flag byte is not zero).
pub open spec fn bid_is_blank(data: Seq<u8>, k: int) -> bool {
    data[bid_base() + bid_size() * k] > 0
}

/// The bidder of bid `k`.
pub open spec fn bid_bidder(data: Seq<u8>, k: int) -> Seq<u8> {
    key_at(data, bid_base() + bid_size() * k + 1)
}

/// The deposit of bid `k`.
pub open spec fn bid_deposit(data: Seq<u8>, k: int) -> int {
    le_u64_at(data, bid_base() + bid_size() * k + 33)
}

/// One bid of a bid list.
pub struct Bid {
    pub is_blank: bool,
    /// The owner of the bid, who owns the token account that refunds go to.
    pub bidder: Pubkey,
    /// The deposit of the bidder.
    pub deposit: u64,
}

/// The book of bids of a pipeline.
pub struct BidList {
    pub bidding_finished: bool,
    pub payout: Pubkey,
    pub book: Vec<Bid>,
    /// Sum of all deposits; each bid holds its own share.
    pub total_deposits: u64,
}

/// Whether `b` holds exactly the bid list stored in `data`.
pub open spec fn bidlist_matches(b: BidList, data: Seq<u8>) -> bool {
    &&& b.bidding_finished == (data[0] > 0)
    &&& b.payout@ == key_at(data, 1)
    &&& b.book@.len() == bidlist_count(data)
    &&& forall|k: int|
        0 <= k < b.book@.len() ==> {
            &&& (#[trigger] b.book@[k]).is_blank == bid_is_blank(data, k)
            &&& b.book@[k].bidder@ == bid_bidder(data, k)
            &&& b.book@[k].deposit == bid_deposit(data, k)
        }
    &&& b.total_deposits == le_u64_at(data, bid_base() + bid_size() * bidlist_count(data))
}

impl BidList {
    /// Reads a bid list; `None` when the data ends before the declared bids and
    /// the total.
    pub fn parse(data: &[u8]) -> (r: Option<Self>)
        ensures
            r is Some <==> bidlist_fits(data@),
            r matches Some(b) ==> bidlist_matches(b, data@),
    {
        if data.len() < 1 + 32 + 4 {
            return None;
        }
        let mut i: usize = 0;
        let bidding_finished = 0 < data[i];
        i += 1;
        let payout = Pubkey::read_at(data, i);
        i += 32;
        let size = read_u32_le(data, i);
        i += 4;
        let mut book: Vec<Bid> = Vec::new();
        let mut k: u32 = 0;
        while k < size
            invariant
                data@.len() >= 37,
                size == bidlist_count(data@),
                k <= size,
                i == bid_base() + bid_size() * k,
                i <= data@.len(),
                book@.len() == k,
                forall|j: int|
                    0 <= j < k ==> {
                        &&& (#[trigger] book@[j]).is_blank == bid_is_blank(data@, j)
                        &&& book@[j].bidder@ == bid_bidder(data@, j)
                        &&& book@[j].deposit == bid_deposit(data@, j)
                    },
            decreases size - k,
        {
            if data.len() - i < 1 + 32 + 8 {
                assert(!bidlist_fits(data@)) by {
                    assert(bid_base() + bid_size() * (k + 1) <= bid_base() + bid_size() * size)
                        by (nonlinear_arith)
                        requires
                            k < size,
                    ;
                }
                return None;
            }
            let is_blank = 0 < data[i];
            i += 1;
            let bidder = Pubkey::read_at(data, i);
            i += 32;
            let deposit = read_u64_le(data, i);
            i += 8;
            book.push(Bid { is_blank, bidder, deposit });
            k += 1;
        }
        if data.len() - i < 8 {
            return None;
        }
        let total_deposits = read_u64_le(data, i);
        Some(Self { payout, bidding_finished, book, total_deposits })
    }
}

/// The four little-endian bytes of `x`, for `x` below 2^32.
pub open spec fn u32_le_bytes(x: nat) -> Seq<u8> {
    seq![
        (x % 256) as u8,
        ((x / 256) % 256) as u8,
        ((x / 65536) % 256) as u8,
        ((x / 16777216) % 256) as u8,
    ]
}

/// The eight little-endian bytes of `x`, for `x` below 2^64.
pub open spec fn u64_le_bytes(x: nat) -> Seq<u8> {
    u32_le_bytes(x % 4294967296) + u32_le_bytes(x / 4294967296)
}

/// The bytes of one bid: the blank flag (1 or 0), the bidder, the deposit.
pub open spec fn bid_bytes(b: Bid) -> Seq<u8> {
    seq![if b.is_blank { 1u8 } else { 0u8 }] + b.bidder@ + u64_le_bytes(b.deposit as nat)
}

/// The bytes of the bids, one after the other.
pub open spec fn bids_bytes(s: Seq<Bid>) -> Seq<u8>
    decreases s.len(),
{
    if s.len() == 0 {
        seq![]
    } else {
        bids_bytes(s.drop_last()) + bid_bytes(s.last())
    }
}

/// The encoding of a bid list: the finished flag (1 or 0), the payout account,
/// the number of bids as a `u32`, the bids, and the total deposits.
pub open spec fn bidlist_bytes(b: BidList) -> Seq<u8> {
    seq![if b.bidding_finished { 1u8 } else { 0u8 }] + b.payout@ + u32_le_bytes(b.book@.len())
        + bids_bytes(b.book@) + u64_le_bytes(b.total_deposits as nat)
}

/// Whether two bid lists hold the same values, field by field and bid by bid.
pub open spec fn same_bidlist(a: BidList, b: BidList) -> bool {
    &&& a.bidding_finished == b.bidding_finished
    &&& a.payout@ == b.payout@
    &&& a.book@.len() == b.book@.len()
    &&& forall|k: int|
        0 <= k < a.book@.len() ==> {
            &&& (#[trigger] a.book@[k]).is_blank == b.book@[k].is_blank
            &&& a.book@[k].bidder@ == b.book@[k].bidder@
            &&& a.book@[k].deposit == b.book@[k].deposit
        }
    &&& a.total_deposits == b.total_deposits
}

proof fn lemma_u32_le_bytes(data: Seq<u8>, off: int, x: nat)
    requires
        0 <= off,
        off + 4 <= data.len(),
        x < 4294967296,
        data.subrange(off, off + 4) == u32_le_bytes(x),
    ensures
        le_u32_at(data, off) == x,
{
    let e = u32_le_bytes(x);
    assert(data[off] == e[0] && data[off + 1] == e[1] && data[off + 2] == e[2] && data[off + 3]
        == e[3]) by {
        assert(data.subrange(off, off + 4)[0] == data[off]);
        assert(data.subrange(off, off + 4)[1] == data[off + 1]);
        assert(data.subrange(off, off + 4)[2] == data[off + 2]);
        assert(data.subrange(off, off + 4)[3] == data[off + 3]);
    }
    let b0 = x % 256;
    let b1 = (x / 256) % 256;
    let b2 = (x / 65536) % 256;
    let b3 = (x / 16777216) % 256;
    assert(x == b0 + 256 * (b1 + 256 * (b2 + 256 * b3))) by (nonlinear_arith)
        requires
            b0 == x % 256,
            b1 == (x / 256) % 256,
            b2 == (x / 65536) % 256,
            b3 == (x / 16777216) % 256,
            x < 4294967296,
    ;
}

proof fn lemma_u64_le_bytes(data: Seq<u8>, off: int, x: nat)
    requires
        0 <= off,
        off + 8 <= data.len(),
        x < 18446744073709551616,
        data.subrange(off, off + 8) == u64_le_bytes(x),
    ensures
        le_u64_at(data, off) == x,
{
    let lo = x % 4294967296;
    let hi = x / 4294967296;
    assert(lo < 4294967296 && hi < 4294967296 && x == lo + 4294967296 * hi) by (nonlinear_arith)
        requires
            lo == x % 4294967296,
            hi == x / 4294967296,
            x < 18446744073709551616,
    ;
    assert(data.subrange(off, off + 4) =~= data.subrange(off, off + 8).subrange(0, 4));
    assert(data.subrange(off + 4, off + 8) =~= data.subrange(off, off + 8).subrange(4, 8));
    assert(u64_le_bytes(x).subrange(0, 4) =~= u32_le_bytes(lo));
    assert(u64_le_bytes(x).subrange(4, 8) =~= u32_le_bytes(hi));
    lemma_u32_le_bytes(data, off, lo);
    lemma_u32_le_bytes(data, off + 4, hi);
}

proof fn lemma_bid_bytes_len(b: Bid)
    ensures
        bid_bytes(b).len() == 41,
{
}

proof fn lemma_bids_bytes(s: Seq<Bid>)
    ensures
        bids_bytes(s).len() == 41 * s.len(),
        forall|k: int|
            0 <= k < s.len() ==> bids_bytes(s).subrange(41 * k, 41 * k + 41) == bid_bytes(
                #[trigger] s[k],
            ),
    decreases s.len(),
{
    if s.len() > 0 {
        let r = s.drop_last();
        lemma_bids_bytes(r);
        lemma_bid_bytes_len(s.last());
        let a = bids_bytes(r);
        let c = bid_bytes(s.last());
        assert forall|k: int| 0 <= k < s.len() implies bids_bytes(s).subrange(41 * k, 41 * k + 41)
            == bid_bytes(#[trigger] s[k]) by {
            if k < s.len() - 1 {
                assert(s[k] == r[k]);
                assert((a + c).subrange(41 * k, 41 * k + 41) =~= a.subrange(41 * k, 41 * k + 41));
            } else {
                assert((a + c).subrange(41 * k, 41 * k + 41) =~= c);
            }
        }
    }
}

/// Reading the encoding of a bid list, with any bytes after it, gives the same
/// bid list back: the data holds the whole list, and every bid list that
/// `BidList::parse` can return for it (see its contract) equals the one encoded.
pub proof fn lemma_bidlist_round_trip(b: BidList, t: Seq<u8>)
    requires
        b.book@.len() < 4294967296,
    ensures
        bidlist_fits(bidlist_bytes(b) + t),
        forall|b2: BidList| #[trigger] bidlist_matches(b2, bidlist_bytes(b) + t) ==> same_bidlist(b2, b),
{
    let n: int = b.book@.len() as int;
    let head = seq![if b.bidding_finished { 1u8 } else { 0u8 }] + b.payout@ + u32_le_bytes(n as nat);
    let bids = bids_bytes(b.book@);
    let tot = u64_le_bytes(b.total_deposits as nat);
    let d = bidlist_bytes(b) + t;
    lemma_bids_bytes(b.book@);
    assert(head.len() == 37);
    assert(d =~= head + bids + tot + t);
    assert(d.len() == 37 + 41 * n + 8 + t.len());
    // header
    assert(d.subrange(33, 37) =~= u32_le_bytes(n as nat));
    lemma_u32_le_bytes(d, 33, n as nat);
    assert(bidlist_count(d) == n);
    assert(d[0] == head[0]);
    assert(key_at(d, 1) =~= b.payout@);
    // total
    assert(d.subrange(37 + 41 * n, 37 + 41 * n + 8) =~= tot);
    lemma_u64_le_bytes(d, 37 + 41 * n, b.total_deposits as nat);
    // bids
    assert forall|k: int| 0 <= k < n implies {
        &&& bid_is_blank(d, k) == (#[trigger] b.book@[k]).is_blank
        &&& bid_bidder(d, k) == b.book@[k].bidder@
        &&& bid_deposit(d, k) == b.book@[k].deposit
    } by {
        let off = 37 + 41 * k;
        let x = b.book@[k];
        assert(d.subrange(off, off + 41) =~= bids.subrange(41 * k, 41 * k + 41));
        let w = bid_bytes(x);
        assert(d.subrange(off, off + 41) == w);
        assert(d[off] == w[0]);
        assert(key_at(d, off + 1) =~= w.subrange(1, 33));
        assert(w.subrange(1, 33) =~= x.bidder@);
        assert(d.subrange(off + 33, off + 41) =~= w.subrange(33, 41));
        assert(w.subrange(33, 41) =~= u64_le_bytes(x.deposit as nat));
        lemma_u64_le_bytes(d, off + 33, x.deposit as nat);
    }
}

// ---------------------------------------------------------------------------
// Refunds: [pipeline: 32][n: u32 LE][n x (bidder: 32, balance: u64 LE)]
// ---------------------------------------------------------------------------

/// Size in bytes of one claim.
pub const CLAIM_SIZE: usize = PUBKEY_LEN + U64_LEN;

/// Size in bytes of the refunds header: the pipeline and the claim count.
pub const CLAIM_HEADER_SIZE: usize = PUBKEY_LEN + U32_LEN;

/// The number of claims in the refunds data, where the data holds all of them.
pub open spec fn refunds_count(data: Seq<u8>) -> Option<nat> {
    if data.len() < CLAIM_HEADER_SIZE {
        None
    } else if data.len() < CLAIM_HEADER_SIZE + le_u32_at(data, PUBKEY_LEN as int) * CLAIM_SIZE {
        None
    } else {
        Some(le_u32_at(data, PUBKEY_LEN as int) as nat)
    }
}

/// Offset of claim `k`.
pub open spec fn claim_offset(k: int) -> int {
    CLAIM_HEADER_SIZE + k * CLAIM_SIZE
}

/// The bidder of claim `k`.
pub open spec fn claim_bidder(data: Seq<u8>, k: int) -> Seq<u8> {
    key_at(data, claim_offset(k))
}

/// The balance of claim `k`.
pub open spec fn claim_balance(data: Seq<u8>, k: int) -> int {
    le_u64_at(data, claim_offset(k) + PUBKEY_LEN)
}

/// A refund owed to a bidder.
#[derive(Clone)]
pub struct Claim {
    pub bidder: Pubkey,
    pub balance: u64,
}

/// The refunds owed by a pipeline.
#[derive(Clone)]
pub struct Refunds {
    pub pipeline: Pubkey,
    pub refunds: Vec<Claim>,
}

impl Refunds {
    /// The number of claims, where the data holds all the claims it declares.
    pub fn count(data: &[u8]) -> (r: Option<usize>)
        ensures
            match r {
                Some(n) => refunds_count(data@) == Some(n as nat),
                None => refunds_count(data@) is None,
            },
    {
        if data.len() < CLAIM_HEADER_SIZE {
            return None;
        }
        let n = read_u32_le(data, PUBKEY_LEN);
        let need: u64 = CLAIM_HEADER_SIZE as u64 + (n as u64) * (CLAIM_SIZE as u64);
        if (data.len() as u64) < need {
            return None;
        }
        Some(n as usize)
    }

    /// Reads claim `claim_i`, which must lie within the data.
    pub fn parse(data: &[u8], claim_i: usize) -> (c: Claim)
        requires
            claim_offset(claim_i as int) + CLAIM_SIZE <= data.len(),
        ensures
            c.bidder@ == claim_bidder(data@, claim_i as int),
            c.balance == claim_balance(data@, claim_i as int),
    {
        let start = CLAIM_HEADER_SIZE + claim_i * CLAIM_SIZE;
        let bidder = Pubkey::read_at(data, start);
        let balance = read_u64_le(data, start + PUBKEY_LEN);
        Claim { bidder, balance }
    }
}

/// Every claim that `Refunds::count` counts can be read by `Refunds::parse`.
pub proof fn lemma_counted_claims_are_readable(data: Seq<u8>, k: int)
    requires
        refunds_count(data) is Some,
        0 <= k < refunds_count(data).unwrap(),
    ensures
        claim_offset(k) + CLAIM_SIZE <= data.len(),
{
    let n = refunds_count(data).unwrap() as int;
    assert(claim_offset(k) + CLAIM_SIZE <= claim_offset(n)) by (nonlinear_arith)
        requires
            0 <= k < n,
    ;
}

/// The ring of periods of a pipeline.
#[derive(Clone)]
pub struct PeriodRing {
    pub pipeline: Pubkey,
    pub ring: Vec<PeriodWithPayout>,
    /// Where the ring starts.
    pub start: u16,
    /// How many periods the ring holds from `start`.
    pub length: u16,
}

/// A period with the account that receives its payout.
#[derive(Clone)]
pub struct PeriodWithPayout {
    pub period: Period,
    pub payout: Pubkey,
}

/// A bandwidth period of a pipeline.
#[derive(Clone, Copy)]
pub struct Period {
    pub is_blank: bool,
    pub bandwidth_allotment: u16,
    /// Bandwidth withheld, in thousandths.
    pub withhold: u16,
    /// First slot of the period.
    pub start: u64,
    /// Number of slots in the period.
    pub length: u64,
}

/// For each of the first `n` claims with a positive balance, an edge from the
/// account to the bidder.
pub open spec fn claim_links(h: AccountHeader, data: Seq<u8>, n: nat) -> Seq<EdgeView>
    decreases n,
{
    if n == 0 {
        seq![]
    } else {
        claim_links(h, data, (n - 1) as nat) + if claim_balance(data, n - 1) > 0 {
            out_to(h, WEIGHT_SYMLINK, claim_bidder(data, n - 1))
        } else {
            seq![]
        }
    }
}

/// For each of the first `n` bids that is not blank, an edge from the bidder
/// to the account.
pub open spec fn bid_links(h: AccountHeader, data: Seq<u8>, n: nat) -> Seq<EdgeView>
    decreases n,
{
    if n == 0 {
        seq![]
    } else {
        bid_links(h, data, (n - 1) as nat) + if bid_is_blank(data, n - 1) {
            seq![]
        } else {
            in_from(h, WEIGHT_SYMLINK, bid_bidder(data, n - 1))
        }
    }
}

/// The edges of a Solpipe account; offsets are counted after the discriminator:
/// - controller: from the program, to the admin (offset 1);
/// - controller API: from the controller (offset 1);
/// - pipeline: from the controller (offset 0), to the admin (offset 66, symlink);
/// - payout: from the pipeline (offset 34);
/// - period ring: from the pipeline (offset 0);
/// - refunds: from the pipeline (offset 0), then, where all claims are present,
///   to the bidder of each claim with a positive balance (symlink);
/// - bid list: where the whole list is present, from the payout account, then
///   from the bidder of each bid that is not blank (symlink); else nothing;
/// - agent: from the controller (offset 1), to the authorizer (offset 33) and
///   to the vault (offset 97).
pub open spec fn solpipe_edges(program_id: Seq<u8>, h: AccountHeader, data: Seq<u8>) -> Seq<EdgeView> {
    let sub = data.subrange(8, data.len() as int);
    if data.len() < 8 {
        seq![]
    } else if has_discriminator(controller_disc(), data) {
        in_from(h, WEIGHT_PROGRAM, program_id) + out_to(h, WEIGHT_DIRECT, key_at(sub, 1))
    } else if has_discriminator(controllerapi_disc(), data) {
        in_from(h, WEIGHT_DIRECT, key_at(sub, 1))
    } else if has_discriminator(pipeline_disc(), data) {
        in_from(h, WEIGHT_DIRECT, key_at(sub, 0)) + out_to(h, WEIGHT_SYMLINK, key_at(sub, 66))
    } else if has_discriminator(payout_disc(), data) {
        in_from(h, WEIGHT_DIRECT, key_at(sub, 34))
    } else if has_discriminator(periodring_disc(), data) {
        in_from(h, WEIGHT_DIRECT, key_at(sub, 0))
    } else if has_discriminator(refunds_disc(), data) {
        in_from(h, WEIGHT_DIRECT, key_at(sub, 0)) + match refunds_count(sub) {
            Some(n) => claim_links(h, sub, n),
            None => seq![],
        }
    } else if has_discriminator(bidlist_disc(), data) {
        if bidlist_fits(sub) {
            in_from(h, WEIGHT_DIRECT, key_at(sub, 1)) + bid_links(h, sub, bidlist_count(sub) as nat)
        } else {
            seq![]
        }
    } else if has_discriminator(agent_disc(), data) {
        in_from(h, WEIGHT_DIRECT, key_at(sub, 1)) + out_to(h, WEIGHT_DIRECT, key_at(sub, 33))
            + out_to(h, WEIGHT_DIRECT, key_at(sub, 97))
    } else {
        seq![]
    }
}

/// The smallest data length of each account kind that the filter reads.
pub open spec fn solpipe_needed_len(data: Seq<u8>) -> int {
    if data.len() < 8 {
        0
    } else if has_discriminator(controller_disc(), data) {
        185
    } else if has_discriminator(controllerapi_disc(), data) {
        41
    } else if has_discriminator(pipeline_disc(), data) {
        106
    } else if has_discriminator(payout_disc(), data) {
        74
    } else if has_discriminator(periodring_disc(), data) {
        40
    } else if has_discriminator(refunds_disc(), data) {
        40
    } else if has_discriminator(bidlist_disc(), data) {
        0
    } else if has_discriminator(agent_disc(), data) {
        137
    } else {
        0
    }
}

proof fn lemma_claim_links_sound(h: AccountHeader, data: Seq<u8>, n: nat, cfg: Set<Seq<u8>>)
    requires
        claim_offset(n as int) <= data.len(),
    ensures
        edges_sound(claim_links(h, data, n), h, data, cfg),
    decreases n,
{
    broadcast use group_sound;

    if n > 0 {
        assert(claim_offset(n - 1) >= 0 && claim_offset(n - 1) + 40 == claim_offset(n as int)) by (nonlinear_arith)
            requires
                n > 0,
        ;
        lemma_claim_links_sound(h, data, (n - 1) as nat, cfg);
        if claim_balance(data, n - 1) > 0 {
            assert(edges_sound(out_to(h, WEIGHT_SYMLINK, claim_bidder(data, n - 1)), h, data, cfg));
        } else {
            assert(edges_sound(Seq::<EdgeView>::empty(), h, data, cfg));
        }
    }
}

proof fn lemma_bid_links_sound(h: AccountHeader, data: Seq<u8>, n: nat, cfg: Set<Seq<u8>>)
    requires
        bid_base() + bid_size() * n <= data.len(),
    ensures
        edges_sound(bid_links(h, data, n), h, data, cfg),
    decreases n,
{
    broadcast use group_sound;

    if n > 0 {
        lemma_bid_links_sound(h, data, (n - 1) as nat, cfg);
        assert(bid_size() * (n - 1) >= 0) by (nonlinear_arith)
            requires
                n > 0,
        ;
    }
}

/// Every edge of a readable Solpipe account is at the account's slot, touches
/// the account, and links it to the program or to an address stored in its data.
pub proof fn lemma_solpipe_edges_sound(program_id: Seq<u8>, h: AccountHeader, data: Seq<u8>)
    requires
        data.len() >= solpipe_needed_len(data),
    ensures
        edges_sound(solpipe_edges(program_id, h, data), h, data, set![program_id]),
{
    broadcast use group_sound;

    let cfg = set![program_id];
    assert(cfg.contains(program_id));
    if data.len() >= 8 {
        let sub = data.subrange(8, data.len() as int);
        if let Some(n) = refunds_count(sub) {
            assert(claim_offset(n as int) <= sub.len());
            lemma_claim_links_sound(h, sub, n, cfg);
        }
        if bidlist_fits(sub) {
            lemma_bid_links_sound(h, sub, bidlist_count(sub) as nat, cfg);
        }
        assert(edges_sound(solpipe_edges(program_id, h, data), h, sub, cfg));
        lemma_sound_after_prefix(solpipe_edges(program_id, h, data), h, data, 8, cfg);
    }
}

/// The number of bids before bid `k` of a bid list that are not blank.
pub open spec fn nonblank_before(data: Seq<u8>, k: nat) -> nat
    decreases k,
{
    if k == 0 {
        0
    } else {
        nonblank_before(data, (k - 1) as nat) + if bid_is_blank(data, k - 1) {
            0nat
        } else {
            1nat
        }
    }
}

proof fn lemma_nonblank_before_monotone(data: Seq<u8>, a: nat, b: nat)
    requires
        a <= b,
    ensures
        nonblank_before(data, a) <= nonblank_before(data, b),
    decreases b,
{
    if a < b {
        lemma_nonblank_before_monotone(data, a, (b - 1) as nat);
    }
}

proof fn lemma_bid_links_every_bid(h: AccountHeader, data: Seq<u8>, n: nat)
    ensures
        bid_links(h, data, n).len() == nonblank_before(data, n),
        forall|k: int|
            0 <= k < n && !bid_is_blank(data, k) ==> #[trigger] bid_links(h, data, n)[nonblank_before(
                data,
                k as nat,
            ) as int] == link(h.slot, WEIGHT_SYMLINK, bid_bidder(data, k), h.pubkey@),
    decreases n,
{
    if n > 0 {
        let p = (n - 1) as nat;
        lemma_bid_links_every_bid(h, data, p);
        let a = bid_links(h, data, p);
        let b: Seq<EdgeView> = if bid_is_blank(data, p as int) {
            seq![]
        } else {
            in_from(h, WEIGHT_SYMLINK, bid_bidder(data, p as int))
        };
        assert(bid_links(h, data, n) == a + b);
        assert forall|k: int| 0 <= k < n && !bid_is_blank(data, k) implies #[trigger] (a + b)[nonblank_before(
            data,
            k as nat,
        ) as int] == link(h.slot, WEIGHT_SYMLINK, bid_bidder(data, k), h.pubkey@) by {
            if k < p {
                lemma_nonblank_before_monotone(data, (k + 1) as nat, p);
                assert(nonblank_before(data, (k + 1) as nat) == nonblank_before(data, k as nat) + 1);
                assert((a + b)[nonblank_before(data, k as nat) as int] == a[nonblank_before(data, k as nat) as int]);
            } else {
                assert((a + b)[nonblank_before(data, k as nat) as int] == b[0]);
            }
        }
    }
}

proof fn lemma_bid_links_ignore_flag(h: AccountHeader, data: Seq<u8>, n: nat, x: u8)
    requires
        bid_base() + bid_size() * n <= data.len(),
    ensures
        bid_links(h, data.update(0, x), n) == bid_links(h, data, n),
    decreases n,
{
    if n > 0 {
        let p = (n - 1) as nat;
        let d2 = data.update(0, x);
        assert(bid_base() + bid_size() * p + bid_size() <= data.len()) by (nonlinear_arith)
            requires
                bid_base() + bid_size() * n <= data.len(),
                p == n - 1,
        ;
        lemma_bid_links_ignore_flag(h, data, p, x);
        assert(bid_is_blank(d2, p as int) == bid_is_blank(data, p as int));
        assert(bid_bidder(d2, p as int) =~= bid_bidder(data, p as int));
    }
}

/// A Solpipe bid list whose data holds the whole list is linked from its payout
/// account and then, in order, from the bidder of every bid that is not blank,
/// and from nothing else: the edge of a non-blank bid `k` comes right after
/// those of the non-blank bids before it. The finished flag (the byte right
/// after the discriminator) does not change the edges.
pub proof fn lemma_solpipe_bidlist_links_every_bid(program_id: Seq<u8>, h: AccountHeader, data: Seq<u8>)
    requires
        has_discriminator(bidlist_disc(), data),
        bidlist_fits(data.subrange(8, data.len() as int)),
    ensures
        ({
            let sub = data.subrange(8, data.len() as int);
            let e = solpipe_edges(program_id, h, data);
            let n = bidlist_count(sub);
            &&& e.len() == 1 + nonblank_before(sub, n as nat)
            &&& e[0] == link(h.slot, WEIGHT_DIRECT, key_at(sub, 1), h.pubkey@)
            &&& forall|k: int|
                0 <= k < n && !bid_is_blank(sub, k) ==> #[trigger] e[1 + nonblank_before(sub, k as nat) as int]
                    == link(h.slot, WEIGHT_SYMLINK, bid_bidder(sub, k), h.pubkey@)
            &&& forall|x: u8| #[trigger] solpipe_edges(program_id, h, data.update(8, x)) == e
        }),
{
    let sub = data.subrange(8, data.len() as int);
    let n = bidlist_count(sub);
    assert(n >= 0);
    lemma_solpipe_kinds_exclusive(data);
    lemma_bid_links_every_bid(h, sub, n as nat);
    let a = in_from(h, WEIGHT_DIRECT, key_at(sub, 1));
    let c = bid_links(h, sub, n as nat);
    let e = solpipe_edges(program_id, h, data);
    assert(e == a + c);
    assert forall|k: int| 0 <= k < n && !bid_is_blank(sub, k) implies #[trigger] e[1 + nonblank_before(
        sub,
        k as nat,
    ) as int] == link(h.slot, WEIGHT_SYMLINK, bid_bidder(sub, k), h.pubkey@) by {
        lemma_nonblank_before_monotone(sub, (k + 1) as nat, n as nat);
        assert(nonblank_before(sub, (k + 1) as nat) == nonblank_before(sub, k as nat) + 1);
        assert((a + c)[1 + nonblank_before(sub, k as nat) as int] == c[nonblank_before(sub, k as nat) as int]);
    }
    assert forall|x: u8| #[trigger] solpipe_edges(program_id, h, data.update(8, x)) == e by {
        let d2 = data.update(8, x);
        let sub2 = d2.subrange(8, d2.len() as int);
        assert(sub2 =~= sub.update(0, x));
        assert(d2.subrange(0, 8) =~= data.subrange(0, 8));
        assert(key_at(sub2, 1) =~= key_at(sub, 1));
        assert(bidlist_count(sub2) == n);
        lemma_bid_links_ignore_flag(h, sub, n as nat, x);
        lemma_solpipe_kinds_exclusive(d2);
    }
}

/// The number of claims before claim `k` of a refunds account with a positive
/// balance.
pub open spec fn positive_before(data: Seq<u8>, k: nat) -> nat
    decreases k,
{
    if k == 0 {
        0
    } else {
        positive_before(data, (k - 1) as nat) + if claim_balance(data, k - 1) > 0 {
            1nat
        } else {
            0nat
        }
    }
}

proof fn lemma_positive_before_monotone(data: Seq<u8>, a: nat, b: nat)
    requires
        a <= b,
    ensures
        positive_before(data, a) <= positive_before(data, b),
    decreases b,
{
    if a < b {
        lemma_positive_before_monotone(data, a, (b - 1) as nat);
    }
}

proof fn lemma_claim_links_every_claim(h: AccountHeader, data: Seq<u8>, n: nat)
    ensures
        claim_links(h, data, n).len() == positive_before(data, n),
        forall|k: int|
            0 <= k < n && claim_balance(data, k) > 0 ==> #[trigger] claim_links(h, data, n)[positive_before(
                data,
                k as nat,
            ) as int] == link(h.slot, WEIGHT_SYMLINK, h.pubkey@, claim_bidder(data, k)),
    decreases n,
{
    if n > 0 {
        let p = (n - 1) as nat;
        lemma_claim_links_every_claim(h, data, p);
        let a = claim_links(h, data, p);
        let b: Seq<EdgeView> = if claim_balance(data, p as int) > 0 {
            out_to(h, WEIGHT_SYMLINK, claim_bidder(data, p as int))
        } else {
            seq![]
        };
        assert(claim_links(h, data, n) == a + b);
        assert forall|k: int| 0 <= k < n && claim_balance(data, k) > 0 implies #[trigger] (a + b)[positive_before(
            data,
            k as nat,
        ) as int] == link(h.slot, WEIGHT_SYMLINK, h.pubkey@, claim_bidder(data, k)) by {
            if k < p {
                lemma_positive_before_monotone(data, (k + 1) as nat, p);
                assert(positive_before(data, (k + 1) as nat) == positive_before(data, k as nat) + 1);
                assert((a + b)[positive_before(data, k as nat) as int] == a[positive_before(data, k as nat) as int]);
            } else {
                assert((a + b)[positive_before(data, k as nat) as int] == b[0]);
            }
        }
    }
}

/// A Solpipe refunds account is linked from its pipeline (the first address
/// after the discriminator); where the data holds every claim that it
/// declares, it then links, in order, to the bidder of every claim with a
/// positive balance, and to nothing else; where it does not, the pipeline
/// edge is the only one.
pub proof fn lemma_solpipe_refunds_link_positive_claims(program_id: Seq<u8>, h: AccountHeader, data: Seq<u8>)
    requires
        has_discriminator(refunds_disc(), data),
    ensures
        ({
            let sub = data.subrange(8, data.len() as int);
            let e = solpipe_edges(program_id, h, data);
            &&& e.len() >= 1
            &&& e[0] == link(h.slot, WEIGHT_DIRECT, key_at(sub, 0), h.pubkey@)
            &&& refunds_count(sub) is None ==> e.len() == 1
            &&& refunds_count(sub) matches Some(n) ==> {
                &&& e.len() == 1 + positive_before(sub, n)
                &&& forall|k: int|
                    0 <= k < n && claim_balance(sub, k) > 0 ==> #[trigger] e[1 + positive_before(
                        sub,
                        k as nat,
                    ) as int] == link(h.slot, WEIGHT_SYMLINK, h.pubkey@, claim_bidder(sub, k))
            }
        }),
{
    let sub = data.subrange(8, data.len() as int);
    lemma_solpipe_kinds_exclusive(data);
    let a = in_from(h, WEIGHT_DIRECT, key_at(sub, 0));
    let e = solpipe_edges(program_id, h, data);
    match refunds_count(sub) {
        Some(n) => {
            lemma_claim_links_every_claim(h, sub, n);
            let c = claim_links(h, sub, n);
            assert(e == a + c);
            assert forall|k: int| 0 <= k < n && claim_balance(sub, k) > 0 implies #[trigger] e[1
                + positive_before(sub, k as nat) as int] == link(
                h.slot,
                WEIGHT_SYMLINK,
                h.pubkey@,
                claim_bidder(sub, k),
            ) by {
                lemma_positive_before_monotone(sub, (k + 1) as nat, n);
                assert(positive_before(sub, (k + 1) as nat) == positive_before(sub, k as nat) + 1);
                assert((a + c)[1 + positive_before(sub, k as nat) as int] == c[positive_before(sub, k as nat) as int]);
            }
        },
        None => {
            assert(e =~= a);
        },
    }
}

/// The data of an account matches at most one of the program's discriminators,
/// so the order in which the filter tests them does not change its edges.
pub proof fn lemma_solpipe_kinds_exclusive(data: Seq<u8>)
    ensures
        (if has_discriminator(agent_disc(), data) { 1int } else { 0 })
            + (if has_discriminator(bidlist_disc(), data) { 1int } else { 0 })
            + (if has_discriminator(refunds_disc(), data) { 1int } else { 0 })
            + (if has_discriminator(controller_disc(), data) { 1int } else { 0 })
            + (if has_discriminator(controllerapi_disc(), data) { 1int } else { 0 })
            + (if has_discriminator(payout_disc(), data) { 1int } else { 0 })
            + (if has_discriminator(periodring_disc(), data) { 1int } else { 0 })
            + (if has_discriminator(pipeline_disc(), data) { 1int } else { 0 })
            + (if has_discriminator(protocol_disc(), data) { 1int } else { 0 })
            + (if has_discriminator(bidreceipt_disc(), data) { 1int } else { 0 }) <= 1,
{
    if data.len() >= 8 {
        assert(data.subrange(0, 8)[0] == data[0]);
    }
}

/// A Solpipe controller is linked from the program, then links to its admin
/// (offset 1 after the discriminator); there is no other edge.
pub proof fn lemma_solpipe_controller_links(program_id: Seq<u8>, h: AccountHeader, data: Seq<u8>)
    requires
        has_discriminator(controller_disc(), data),
    ensures
        ({
            let e = solpipe_edges(program_id, h, data);
            let d = data.subrange(8, data.len() as int);
            &&& e.len() == 1int + 1int
            &&& e[0int] == link(h.slot, WEIGHT_PROGRAM, program_id, h.pubkey@)
            &&& e[1int] == link(h.slot, WEIGHT_DIRECT, h.pubkey@, key_at(d, 1))
        }),
{
    lemma_solpipe_kinds_exclusive(data);
    let d = data.subrange(8, data.len() as int);
    let p0 = in_from(h, WEIGHT_PROGRAM, program_id);
    let p1 = out_to(h, WEIGHT_DIRECT, key_at(d, 1));
    let s0 = p0;
    let s1 = s0 + p1;
    assert(solpipe_edges(program_id, h, data) == s1);
    assert(s1[0int] == s0[0int]);
    assert(s0[0int] == p0[0]);
    assert(s1[1int] == p1[0]);
}

/// A Solpipe controller API is linked from its controller (offset 1 after the
/// discriminator); there is no other edge.
pub proof fn lemma_solpipe_controller_api_links(program_id: Seq<u8>, h: AccountHeader, data: Seq<u8>)
    requires
        has_discriminator(controllerapi_disc(), data),
    ensures
        ({
            let e = solpipe_edges(program_id, h, data);
            let d = data.subrange(8, data.len() as int);
            &&& e.len() == 1int
            &&& e[0int] == link(h.slot, WEIGHT_DIRECT, key_at(d, 1), h.pubkey@)
        }),
{
    lemma_solpipe_kinds_exclusive(data);
    let d = data.subrange(8, data.len() as int);
    let p0 = in_from(h, WEIGHT_DIRECT, key_at(d, 1));
    let s0 = p0;
    assert(solpipe_edges(program_id, h, data) == s0);
    assert(s0[0int] == p0[0]);
}

/// A Solpipe pipeline is linked from its controller (offset 0 after the
/// discriminator), then links to its admin (offset 66, a symlink); there is
/// no other edge.
pub proof fn lemma_solpipe_pipeline_links(program_id: Seq<u8>, h: AccountHeader, data: Seq<u8>)
    requires
        has_discriminator(pipeline_disc(), data),
    ensures
        ({
            let e = solpipe_edges(program_id, h, data);
            let d = data.subrange(8, data.len() as int);
            &&& e.len() == 1int + 1int
            &&& e[0int] == link(h.slot, WEIGHT_DIRECT, key_at(d, 0), h.pubkey@)
            &&& e[1int] == link(h.slot, WEIGHT_SYMLINK, h.pubkey@, key_at(d, 66))
        }),
{
    lemma_solpipe_kinds_exclusive(data);
    let d = data.subrange(8, data.len() as int);
    let p0 = in_from(h, WEIGHT_DIRECT, key_at(d, 0));
    let p1 = out_to(h, WEIGHT_SYMLINK, key_at(d, 66));
    let s0 = p0;
    let s1 = s0 + p1;
    assert(solpipe_edges(program_id, h, data) == s1);
    assert(s1[0int] == s0[0int]);
    assert(s0[0int] == p0[0]);
    assert(s1[1int] == p1[0]);
}

/// A Solpipe payout is linked from its pipeline (offset 34 after the
/// discriminator); there is no other edge.
pub proof fn lemma_solpipe_payout_links(program_id: Seq<u8>, h: AccountHeader, data: Seq<u8>)
    requires
        has_discriminator(payout_disc(), data),
    ensures
        ({
            let e = solpipe_edges(program_id, h, data);
            let d = data.subrange(8, data.len() as int);
            &&& e.len() == 1int
            &&& e[0int] == link(h.slot, WEIGHT_DIRECT, key_at(d, 34), h.pubkey@)
        }),
{
    lemma_solpipe_kinds_exclusive(data);
    let d = data.subrange(8, data.len() as int);
    let p0 = in_from(h, WEIGHT_DIRECT, key_at(d, 34));
    let s0 = p0;
    assert(solpipe_edges(program_id, h, data) == s0);
    assert(s0[0int] == p0[0]);
}

/// A Solpipe period ring is linked from its pipeline (offset 0 after the
/// discriminator); there is no other edge.
pub proof fn lemma_solpipe_period_ring_links(program_id: Seq<u8>, h: AccountHeader, data: Seq<u8>)
    requires
        has_discriminator(periodring_disc(), data),
    ensures
        ({
            let e = solpipe_edges(program_id, h, data);
            let d = data.subrange(8, data.len() as int);
            &&& e.len() == 1int
            &&& e[0int] == link(h.slot, WEIGHT_DIRECT, key_at(d, 0), h.pubkey@)
        }),
{
    lemma_solpipe_kinds_exclusive(data);
    let d = data.subrange(8, data.len() as int);
    let p0 = in_from(h, WEIGHT_DIRECT, key_at(d, 0));
    let s0 = p0;
    assert(solpipe_edges(program_id, h, data) == s0);
    assert(s0[0int] == p0[0]);
}

/// A Solpipe agent is linked from its controller (offset 1 after the
/// discriminator), then links to its authorizer (33) and its vault (97);
/// there is no other edge.
pub proof fn lemma_solpipe_agent_links(program_id: Seq<u8>, h: AccountHeader, data: Seq<u8>)
    requires
        has_discriminator(agent_disc(), data),
    ensures
        ({
            let e = solpipe_edges(program_id, h, data);
            let d = data.subrange(8, data.len() as int);
            &&& e.len() == 1int + 1int + 1int
            &&& e[0int] == link(h.slot, WEIGHT_DIRECT, key_at(d, 1), h.pubkey@)
            &&& e[1int] == link(h.slot, WEIGHT_DIRECT, h.pubkey@, key_at(d, 33))
            &&& e[1int + 1int] == link(h.slot, WEIGHT_DIRECT, h.pubkey@, key_at(d, 97))
        }),
{
    lemma_solpipe_kinds_exclusive(data);
    let d = data.subrange(8, data.len() as int);
    let p0 = in_from(h, WEIGHT_DIRECT, key_at(d, 1));
    let p1 = out_to(h, WEIGHT_DIRECT, key_at(d, 33));
    let p2 = out_to(h, WEIGHT_DIRECT, key_at(d, 97));
    let s0 = p0;
    let s1 = s0 + p1;
    let s2 = s1 + p2;
    assert(solpipe_edges(program_id, h, data) == s2);
    assert(s2[0int] == s1[0int]);
    assert(s1[0int] == s0[0int]);
    assert(s0[0int] == p0[0]);
    assert(s2[1int] == s1[1int]);
    assert(s1[1int] == p1[0]);
    assert(s2[1int + 1int] == p2[0]);
}

/// Edge generator for accounts of the Solpipe program.
pub struct Solpipe {
    d_controller: [u8; 8],
    d_controller_api: [u8; 8],
    d_pipeline: [u8; 8],
    d_period_ring: [u8; 8],
    d_payout: [u8; 8],
    d_agent: [u8; 8],
    d_bidlist: [u8; 8],
    d_refunds: [u8; 8],
    pub program_id: Pubkey,
}

impl Solpipe {
    /// The filter holds the discriminators of the program.
    pub closed spec fn wf(&self) -> bool {
        &&& self.d_controller@ == controller_disc()
        &&& self.d_controller_api@ == controllerapi_disc()
        &&& self.d_pipeline@ == pipeline_disc()
        &&& self.d_period_ring@ == periodring_disc()
        &&& self.d_payout@ == payout_disc()
        &&& self.d_agent@ == agent_disc()
        &&& self.d_bidlist@ == bidlist_disc()
        &&& self.d_refunds@ == refunds_disc()
    }

    /// The address of the program that the filter serves.
    pub closed spec fn program(&self) -> Seq<u8> {
        self.program_id@
    }

    pub fn new(program_id: &Pubkey) -> (s: Self)
        ensures
            s.wf(),
            s.program() == program_id@,
    {
        let d_controller = controller_discriminator();
        let d_controller_api = controllerapi_discriminator();
        let d_pipeline = pipeline_discriminator();
        let d_payout = payout_discriminator();
        let d_agent = agent_discriminator();
        let d_bidlist = bidlist_discriminator();
        let d_period_ring = periodring_discriminator();
        let d_refunds = refunds_discriminator();
        Self {
            program_id: *program_id,
            d_controller,
            d_controller_api,
            d_pipeline,
            d_payout,
            d_agent,
            d_bidlist,
            d_period_ring,
            d_refunds,
        }
    }

    /// The programs whose accounts this filter reads.
    pub fn program_id_list(&self) -> (v: Vec<Pubkey>)
        ensures
            v@.len() == 1,
            v@[0]@ == self.program(),
    {
        vec![self.program_id]
    }

    /// The smallest data length that `edge` needs for this account data.
    fn needed_len(&self, data: &[u8]) -> (n: usize)
        requires
            self.wf(),
        ensures
            n == solpipe_needed_len(data@),
    {
        if data.len() < DISCRIMINATOR_SIZE {
            0
        } else if match_discriminator(&self.d_controller, data) {
            8 + 177
        } else if match_discriminator(&self.d_controller_api, data) {
            8 + 33
        } else if match_discriminator(&self.d_pipeline, data) {
            8 + 98
        } else if match_discriminator(&self.d_payout, data) {
            8 + 66
        } else if match_discriminator(&self.d_period_ring, data) {
            8 + 32
        } else if match_discriminator(&self.d_refunds, data) {
            8 + 32
        } else if match_discriminator(&self.d_bidlist, data) {
            0
        } else if match_discriminator(&self.d_agent, data) {
            8 + 129
        } else {
            0
        }
    }

    /// Whether `edge` can read this account data in full.
    pub fn readable(&self, data: &[u8]) -> (b: bool)
        requires
            self.wf(),
        ensures
            b == (data@.len() >= solpipe_needed_len(data@)),
    {
        data.len() >= self.needed_len(data)
    }

    /// Lists the edges that the account implies.
    pub fn edge(&self, header: &AccountHeader, data: &[u8]) -> (list: VecDeque<FilterEdge>)
        requires
            self.wf(),
            data@.len() >= solpipe_needed_len(data@),
        ensures
            edges_view(list@) == solpipe_edges(self.program(), *header, data@),
    {
        let mut list: VecDeque<FilterEdge> = VecDeque::new();
        assert(edges_view(list@) =~= Seq::<EdgeView>::empty());
        if data.len() < DISCRIMINATOR_SIZE {
            return list;
        }
        let id = header.pubkey;
        let subbuf = slice_subrange(data, DISCRIMINATOR_SIZE, data.len());
        if match_discriminator(&self.d_controller, data) {
            // start after the bump
            let admin_pk = Pubkey::read_at(subbuf, 1);
            // the vault and its mint are read but give no edge
            let _pc_vault_pk = Pubkey::read_at(subbuf, 113);
            let _pc_mint_pk = Pubkey::read_at(subbuf, 145);
            push_link(&mut list, header.slot, WEIGHT_PROGRAM, self.program_id, id);
            push_link(&mut list, header.slot, WEIGHT_DIRECT, id, admin_pk);
        } else if match_discriminator(&self.d_controller_api, data) {
            push_in(&mut list, header, WEIGHT_DIRECT, subbuf, 1);
        } else if match_discriminator(&self.d_pipeline, data) {
            let controller_pk = Pubkey::read_at(subbuf, 0);
            let admin_pk = Pubkey::read_at(subbuf, 66);
            // the pipeline owns its vault, so the token program adds that edge
            push_link(&mut list, header.slot, WEIGHT_DIRECT, controller_pk, id);
            push_link(&mut list, header.slot, WEIGHT_SYMLINK, id, admin_pk);
        } else if match_discriminator(&self.d_payout, data) {
            push_in(&mut list, header, WEIGHT_DIRECT, subbuf, 2 + PUBKEY_LEN);
        } else if match_discriminator(&self.d_period_ring, data) {
            push_in(&mut list, header, WEIGHT_DIRECT, subbuf, 0);
        } else if match_discriminator(&self.d_refunds, data) {
            push_in(&mut list, header, WEIGHT_DIRECT, subbuf, 0);
            let ghost before = edges_view(list@);
            if let Some(claim_count) = Refunds::count(subbuf) {
                let mut i: usize = 0;
                assert(before =~= before + claim_links(*header, subbuf@, 0));
                while i < claim_count
                    invariant
                        i <= claim_count,
                        refunds_count(subbuf@) == Some(claim_count as nat),
                        id == header.pubkey,
                        edges_view(list@) == before + claim_links(*header, subbuf@, i as nat),
                    decreases claim_count - i,
                {
                    proof {
                        lemma_counted_claims_are_readable(subbuf@, i as int);
                    }
                    let claim = Refunds::parse(subbuf, i);
                    let ghost prev = edges_view(list@);
                    if 0 < claim.balance {
                        push_link(&mut list, header.slot, WEIGHT_SYMLINK, id, claim.bidder);
                        assert(edges_view(list@) == prev + out_to(*header, WEIGHT_SYMLINK, claim_bidder(subbuf@, i as int)));
                    } else {
                        assert(edges_view(list@) =~= prev + Seq::<EdgeView>::empty());
                    }
                    assert(claim_links(*header, subbuf@, (i + 1) as nat) == claim_links(*header, subbuf@, i as nat) + if claim_balance(subbuf@, i as int) > 0 {
                        out_to(*header, WEIGHT_SYMLINK, claim_bidder(subbuf@, i as int))
                    } else {
                        seq![]
                    });
                    i += 1;
                    assert(edges_view(list@) =~= before + claim_links(*header, subbuf@, i as nat));
                }
            } else {
                assert(edges_view(list@) =~= before + Seq::<EdgeView>::empty());
            }
        } else if match_discriminator(&self.d_bidlist, data) {
            let bidlist = match BidList::parse(subbuf) {
                Some(x) => x,
                None => {
                    return VecDeque::new();
                },
            };
            push_link(&mut list, header.slot, WEIGHT_DIRECT, bidlist.payout, id);
            let ghost before = edges_view(list@);
            let mut k: usize = 0;
            assert(before =~= before + bid_links(*header, subbuf@, 0));
            while k < bidlist.book.len()
                invariant
                    k <= bidlist.book@.len(),
                    bidlist_matches(bidlist, subbuf@),
                    id == header.pubkey,
                    edges_view(list@) == before + bid_links(*header, subbuf@, k as nat),
                decreases bidlist.book@.len() - k,
            {
                let bid = &bidlist.book[k];
                if !bid.is_blank {
                    push_link(&mut list, header.slot, WEIGHT_SYMLINK, bid.bidder, id);
                }
                k += 1;
                assert(edges_view(list@) =~= before + bid_links(*header, subbuf@, k as nat));
            }
        } else if match_discriminator(&self.d_agent, data) {
            push_in(&mut list, header, WEIGHT_DIRECT, subbuf, 1);
            push_out(&mut list, header, WEIGHT_DIRECT, subbuf, 1 + PUBKEY_LEN);
            push_out(&mut list, header, WEIGHT_DIRECT, subbuf, 1 + 2 * PUBKEY_LEN + 4 * 8);
        }
        list
    }
}

/// Discriminator of the `Agent` account.
pub fn agent_discriminator() -> (d: [u8; 8])
    ensures
        d@ == agent_disc(),
{
    let d = [47, 166, 112, 147, 155, 197, 86, 7];
    assert(d@ =~= agent_disc());
    d
}

/// Discriminator of the `BidList` account.
pub fn bidlist_discriminator() -> (d: [u8; 8])
    ensures
        d@ == bidlist_disc(),
{
    let d = [233, 127, 13, 29, 123, 209, 192, 79];
    assert(d@ =~= bidlist_disc());
    d
}

/// Discriminator of the `Refunds` account.
pub fn refunds_discriminator() -> (d: [u8; 8])
    ensures
        d@ == refunds_disc(),
{
    let d = [169, 83, 174, 99, 135, 161, 12, 150];
    assert(d@ =~= refunds_disc());
    d
}

/// Discriminator of the `Controller` account.
pub fn controller_discriminator() -> (d: [u8; 8])
    ensures
        d@ == controller_disc(),
{
    let d = [184, 79, 171, 0, 183, 43, 113, 110];
    assert(d@ =~= controller_disc());
    d
}

/// Discriminator of the `ControllerApi` account.
pub fn controllerapi_discriminator() -> (d: [u8; 8])
    ensures
        d@ == controllerapi_disc(),
{
    let d = [224, 136, 168, 42, 53, 0, 84, 163];
    assert(d@ =~= controllerapi_disc());
    d
}

/// Discriminator of the `Payout` account.
pub fn payout_discriminator() -> (d: [u8; 8])
    ensures
        d@ == payout_disc(),
{
    let d = [69, 45, 245, 131, 218, 101, 158, 228];
    assert(d@ =~= payout_disc());
    d
}

/// Discriminator of the `PeriodRing` account.
pub fn periodring_discriminator() -> (d: [u8; 8])
    ensures
        d@ == periodring_disc(),
{
    let d = [61, 191, 59, 143, 226, 235, 104, 26];
    assert(d@ =~= periodring_disc());
    d
}

/// Discriminator of the `Pipeline` account.
pub fn pipeline_discriminator() -> (d: [u8; 8])
    ensures
        d@ == pipeline_disc(),
{
    let d = [30, 82, 16, 218, 196, 77, 115, 224];
    assert(d@ =~= pipeline_disc());
    d
}

/// Discriminator of the `Protocol` account.
pub fn protocol_discriminator() -> (d: [u8; 8])
    ensures
        d@ == protocol_disc(),
{
    let d = [45, 39, 101, 43, 115, 72, 131, 40];
    assert(d@ =~= protocol_disc());
    d
}

/// Discriminator of the `BidReceipt` account.
pub fn bidreceipt_discriminator() -> (d: [u8; 8])
    ensures
        d@ == bidreceipt_disc(),
{
    let d = [186, 150, 141, 135, 59, 122, 39, 99];
    assert(d@ =~= bidreceipt_disc());
    d
}

} // verus!
