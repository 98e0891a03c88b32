//! Filter for the Raydium concentrated liquidity program, read by discriminator.
use std::collections::VecDeque;
use vstd::prelude::*;

use crate::primitive::common::{has_discriminator, match_discriminator};
use crate::primitive::header::AccountHeader;
use crate::primitive::provenance::{edges_sound, group_sound, lemma_outs_unless_system_every_address, lemma_outs_unless_system_sound, lemma_nonsystem_before_monotone, nonsystem_before};
use crate::primitive::pubkey::{key_at, zero_key, Pubkey};
use crate::primitive::tree::{
    edges_view, in_from, link, out_to, outs_unless_system, push_in, push_out, push_outs_unless_system,
    EdgeView, FilterEdge, WEIGHT_DIRECT, WEIGHT_SYMLINK,
};

verus! {

/// Discriminator of the `AmmConfig` account.
pub open spec fn amm_config_disc() -> Seq<u8> {
    seq![218u8, 244, 33, 104, 203, 203, 43, 111]
}

/// Discriminator of the `ObservationState` account.
pub open spec fn observation_state_disc() -> Seq<u8> {
    seq![122u8, 174, 197, 53, 129, 9, 165, 132]
}

/// Discriminator of the `OperationState` account.
pub open spec fn operation_state_disc() -> Seq<u8> {
    seq![19u8, 236, 58, 237, 81, 222, 183, 252]
}

/// Discriminator of the `PersonalPositionState` account.
pub open spec fn personal_position_state_disc() -> Seq<u8> {
    seq![70u8, 111, 150, 126, 230, 15, 25, 117]
}

/// Discriminator of the `PoolState` account.
pub open spec fn pool_state_disc() -> Seq<u8> {
    seq![247u8, 237, 227, 245, 215, 195, 222, 70]
}

/// Discriminator of the `ProtocolPositionState` account.
pub open spec fn protocol_position_state_disc() -> Seq<u8> {
    seq![100u8, 226, 145, 99, 146, 218, 160, 106]
}

/// Discriminator of the `SupportMintAssociated` account.
pub open spec fn support_mint_associated_disc() -> Seq<u8> {
    seq![134u8, 40, 183, 79, 12, 112, 162, 53]
}

/// Discriminator of the `TickArrayBitmapExtension` account.
pub open spec fn tick_array_bitmap_extension_disc() -> Seq<u8> {
    seq![60u8, 150, 36, 219, 97, 128, 139, 153]
}

/// Discriminator of the `TickArrayState` account.
pub open spec fn tick_array_state_disc() -> Seq<u8> {
    seq![192u8, 155, 85, 205, 49, 249, 129, 42]
}

/// Number of operation owners in an `OperationState`.
pub const OPERATION_OWNERS: usize = 10;

/// Number of whitelisted mints in an `OperationState`.
pub const WHITELIST_MINTS: usize = 100;

/// The edges of an account of the program, by its discriminator:
/// - `AmmConfig`: from the protocol owner (offset 11, symlink), to the fund owner (offset 61);
/// - `ProtocolPositionState`: from the pool (offset 9);
/// - `SupportMintAssociated`: none;
/// - `TickArrayState`: from the pool (offset 8);
/// - `PersonalPositionState`: from the NFT mint (offset 9, symlink), from the pool (offset 41);
/// - `ObservationState`: from the pool (offset 19);
/// - `TickArrayBitmapExtension`: from the pool (offset 8);
/// - `PoolState`: from the AMM config (offset 9), to the owner (41), the two token
///   vaults (137, 169) and the observation account (201);
/// - `OperationState`: to each of the 10 operation owners from offset 9 and each of
///   the 100 whitelisted mints after them, skipping the system program.
/// Only the operation state skips system-program addresses.
pub open spec fn raydium_edges(h: AccountHeader, data: Seq<u8>) -> Seq<EdgeView> {
    if has_discriminator(amm_config_disc(), data) {
        in_from(h, WEIGHT_SYMLINK, key_at(data, 11)) + out_to(h, WEIGHT_DIRECT, key_at(data, 61))
    } else if has_discriminator(protocol_position_state_disc(), data) {
        in_from(h, WEIGHT_DIRECT, key_at(data, 9))
    } else if has_discriminator(support_mint_associated_disc(), data) {
        seq![]
    } else if has_discriminator(tick_array_state_disc(), data) {
        in_from(h, WEIGHT_DIRECT, key_at(data, 8))
    } else if has_discriminator(personal_position_state_disc(), data) {
        in_from(h, WEIGHT_SYMLINK, key_at(data, 9)) + in_from(h, WEIGHT_DIRECT, key_at(data, 41))
    } else if has_discriminator(observation_state_disc(), data) {
        in_from(h, WEIGHT_DIRECT, key_at(data, 19))
    } else if has_discriminator(tick_array_bitmap_extension_disc(), data) {
        in_from(h, WEIGHT_DIRECT, key_at(data, 8))
    } else if has_discriminator(pool_state_disc(), data) {
        in_from(h, WEIGHT_DIRECT, key_at(data, 9)) + out_to(h, WEIGHT_DIRECT, key_at(data, 41))
            + out_to(h, WEIGHT_DIRECT, key_at(data, 137)) + out_to(h, WEIGHT_DIRECT, key_at(data, 169))
            + out_to(h, WEIGHT_DIRECT, key_at(data, 201))
    } else if has_discriminator(operation_state_disc(), data) {
        outs_unless_system(h, WEIGHT_DIRECT, data, 9, OPERATION_OWNERS as nat) + outs_unless_system(
            h,
            WEIGHT_DIRECT,
            data,
            9 + 32 * OPERATION_OWNERS,
            WHITELIST_MINTS as nat,
        )
    } else {
        seq![]
    }
}

/// The smallest data length of each account kind that the filter reads.
pub open spec fn raydium_needed_len(data: Seq<u8>) -> int {
    if has_discriminator(amm_config_disc(), data) {
        93
    } else if has_discriminator(protocol_position_state_disc(), data) {
        41
    } else if has_discriminator(support_mint_associated_disc(), data) {
        0
    } else if has_discriminator(tick_array_state_disc(), data) {
        40
    } else if has_discriminator(personal_position_state_disc(), data) {
        73
    } else if has_discriminator(observation_state_disc(), data) {
        51
    } else if has_discriminator(tick_array_bitmap_extension_disc(), data) {
        40
    } else if has_discriminator(pool_state_disc(), data) {
        233
    } else if has_discriminator(operation_state_disc(), data) {
        9 + 32 * (OPERATION_OWNERS + WHITELIST_MINTS)
    } else {
        0
    }
}

/// Every edge of a readable account of the program is at the account's slot,
/// touches the account, and links it to an address stored in its data.
pub proof fn lemma_raydium_edges_sound(h: AccountHeader, data: Seq<u8>)
    requires
        data.len() >= raydium_needed_len(data),
    ensures
        edges_sound(raydium_edges(h, data), h, data, Set::empty()),
{
    broadcast use group_sound;

    if has_discriminator(operation_state_disc(), data) && !has_discriminator(amm_config_disc(), data) {
        lemma_outs_unless_system_sound(h, WEIGHT_DIRECT, data, 9, OPERATION_OWNERS as nat, Set::empty());
        lemma_outs_unless_system_sound(
            h,
            WEIGHT_DIRECT,
            data,
            9 + 32 * OPERATION_OWNERS,
            WHITELIST_MINTS as nat,
            Set::empty(),
        );
    }
}

/// The data of an account matches at most one of the program's discriminators,
/// so the order in which the filter tests them does not change its edges.
pub proof fn lemma_raydium_kinds_exclusive(data: Seq<u8>)
    ensures
        (if has_discriminator(amm_config_disc(), data) { 1int } else { 0 })
            + (if has_discriminator(observation_state_disc(), data) { 1int } else { 0 })
            + (if has_discriminator(operation_state_disc(), data) { 1int } else { 0 })
            + (if has_discriminator(personal_position_state_disc(), data) { 1int } else { 0 })
            + (if has_discriminator(pool_state_disc(), data) { 1int } else { 0 })
            + (if has_discriminator(protocol_position_state_disc(), data) { 1int } else { 0 })
            + (if has_discriminator(support_mint_associated_disc(), data) { 1int } else { 0 })
            + (if has_discriminator(tick_array_bitmap_extension_disc(), data) { 1int } else { 0 })
            + (if has_discriminator(tick_array_state_disc(), data) { 1int } else { 0 }) <= 1,
{
    if data.len() >= 8 {
        assert(data.subrange(0, 8)[0] == data[0]);
    }
}

/// A CLMM amm config is linked from the address at offset 11 (a symlink),
/// then links to the address at offset 61; there is no other edge.
pub proof fn lemma_raydium_amm_config_links(h: AccountHeader, data: Seq<u8>)
    requires
        has_discriminator(amm_config_disc(), data),
    ensures
        ({
            let e = raydium_edges(h, data);
            let d = data;
            &&& e.len() == 1int + 1int
            &&& e[0int] == link(h.slot, WEIGHT_SYMLINK, key_at(d, 11), h.pubkey@)
            &&& e[1int] == link(h.slot, WEIGHT_DIRECT, h.pubkey@, key_at(d, 61))
        }),
{
    lemma_raydium_kinds_exclusive(data);
    let d = data;
    let p0 = in_from(h, WEIGHT_SYMLINK, key_at(d, 11));
    let p1 = out_to(h, WEIGHT_DIRECT, key_at(d, 61));
    let s0 = p0;
    let s1 = s0 + p1;
    assert(raydium_edges(h, data) == s1);
    assert(s1[0int] == s0[0int]);
    assert(s0[0int] == p0[0]);
    assert(s1[1int] == p1[0]);
}

/// A protocol position is linked from its pool (offset 9); there is no other
/// edge.
pub proof fn lemma_raydium_protocol_position_links(h: AccountHeader, data: Seq<u8>)
    requires
        has_discriminator(protocol_position_state_disc(), data),
    ensures
        ({
            let e = raydium_edges(h, data);
            let d = data;
            &&& e.len() == 1int
            &&& e[0int] == link(h.slot, WEIGHT_DIRECT, key_at(d, 9), h.pubkey@)
        }),
{
    lemma_raydium_kinds_exclusive(data);
    let d = data;
    let p0 = in_from(h, WEIGHT_DIRECT, key_at(d, 9));
    let s0 = p0;
    assert(raydium_edges(h, data) == s0);
    assert(s0[0int] == p0[0]);
}

/// A tick array is linked from its pool (offset 8); there is no other edge.
pub proof fn lemma_raydium_tick_array_links(h: AccountHeader, data: Seq<u8>)
    requires
        has_discriminator(tick_array_state_disc(), data),
    ensures
        ({
            let e = raydium_edges(h, data);
            let d = data;
            &&& e.len() == 1int
            &&& e[0int] == link(h.slot, WEIGHT_DIRECT, key_at(d, 8), h.pubkey@)
        }),
{
    lemma_raydium_kinds_exclusive(data);
    let d = data;
    let p0 = in_from(h, WEIGHT_DIRECT, key_at(d, 8));
    let s0 = p0;
    assert(raydium_edges(h, data) == s0);
    assert(s0[0int] == p0[0]);
}

/// A personal position is linked from its NFT mint (offset 9, a symlink), then
/// from its pool (offset 41); there is no other edge.
pub proof fn lemma_raydium_personal_position_links(h: AccountHeader, data: Seq<u8>)
    requires
        has_discriminator(personal_position_state_disc(), data),
    ensures
        ({
            let e = raydium_edges(h, data);
            let d = data;
            &&& e.len() == 1int + 1int
            &&& e[0int] == link(h.slot, WEIGHT_SYMLINK, key_at(d, 9), h.pubkey@)
            &&& e[1int] == link(h.slot, WEIGHT_DIRECT, key_at(d, 41), h.pubkey@)
        }),
{
    lemma_raydium_kinds_exclusive(data);
    let d = data;
    let p0 = in_from(h, WEIGHT_SYMLINK, key_at(d, 9));
    let p1 = in_from(h, WEIGHT_DIRECT, key_at(d, 41));
    let s0 = p0;
    let s1 = s0 + p1;
    assert(raydium_edges(h, data) == s1);
    assert(s1[0int] == s0[0int]);
    assert(s0[0int] == p0[0]);
    assert(s1[1int] == p1[0]);
}

/// An observation state is linked from its pool (offset 19); there is no
/// other edge.
pub proof fn lemma_raydium_observation_links(h: AccountHeader, data: Seq<u8>)
    requires
        has_discriminator(observation_state_disc(), data),
    ensures
        ({
            let e = raydium_edges(h, data);
            let d = data;
            &&& e.len() == 1int
            &&& e[0int] == link(h.slot, WEIGHT_DIRECT, key_at(d, 19), h.pubkey@)
        }),
{
    lemma_raydium_kinds_exclusive(data);
    let d = data;
    let p0 = in_from(h, WEIGHT_DIRECT, key_at(d, 19));
    let s0 = p0;
    assert(raydium_edges(h, data) == s0);
    assert(s0[0int] == p0[0]);
}

/// A tick array bitmap extension is linked from its pool (offset 8); there is
/// no other edge.
pub proof fn lemma_raydium_bitmap_extension_links(h: AccountHeader, data: Seq<u8>)
    requires
        has_discriminator(tick_array_bitmap_extension_disc(), data),
    ensures
        ({
            let e = raydium_edges(h, data);
            let d = data;
            &&& e.len() == 1int
            &&& e[0int] == link(h.slot, WEIGHT_DIRECT, key_at(d, 8), h.pubkey@)
        }),
{
    lemma_raydium_kinds_exclusive(data);
    let d = data;
    let p0 = in_from(h, WEIGHT_DIRECT, key_at(d, 8));
    let s0 = p0;
    assert(raydium_edges(h, data) == s0);
    assert(s0[0int] == p0[0]);
}

/// A CLMM pool state is linked from its amm config (offset 9), then links, in
/// order, to its owner (41), its two token vaults (137, 169) and its
/// observation account (201); there is no other edge.
pub proof fn lemma_raydium_pool_links(h: AccountHeader, data: Seq<u8>)
    requires
        has_discriminator(pool_state_disc(), data),
    ensures
        ({
            let e = raydium_edges(h, data);
            let d = data;
            &&& e.len() == 1int + 1int + 1int + 1int + 1int
            &&& e[0int] == link(h.slot, WEIGHT_DIRECT, key_at(d, 9), h.pubkey@)
            &&& e[1int] == link(h.slot, WEIGHT_DIRECT, h.pubkey@, key_at(d, 41))
            &&& e[1int + 1int] == link(h.slot, WEIGHT_DIRECT, h.pubkey@, key_at(d, 137))
            &&& e[1int + 1int + 1int] == link(h.slot, WEIGHT_DIRECT, h.pubkey@, key_at(d, 169))
            &&& e[1int + 1int + 1int + 1int] == link(h.slot, WEIGHT_DIRECT, h.pubkey@, key_at(d, 201))
        }),
{
    lemma_raydium_kinds_exclusive(data);
    let d = data;
    let p0 = in_from(h, WEIGHT_DIRECT, key_at(d, 9));
    let p1 = out_to(h, WEIGHT_DIRECT, key_at(d, 41));
    let p2 = out_to(h, WEIGHT_DIRECT, key_at(d, 137));
    let p3 = out_to(h, WEIGHT_DIRECT, key_at(d, 169));
    let p4 = out_to(h, WEIGHT_DIRECT, key_at(d, 201));
    let s0 = p0;
    let s1 = s0 + p1;
    let s2 = s1 + p2;
    let s3 = s2 + p3;
    let s4 = s3 + p4;
    assert(raydium_edges(h, data) == s4);
    assert(s4[0int] == s3[0int]);
    assert(s3[0int] == s2[0int]);
    assert(s2[0int] == s1[0int]);
    assert(s1[0int] == s0[0int]);
    assert(s0[0int] == p0[0]);
    assert(s4[1int] == s3[1int]);
    assert(s3[1int] == s2[1int]);
    assert(s2[1int] == s1[1int]);
    assert(s1[1int] == p1[0]);
    assert(s4[1int + 1int] == s3[1int + 1int]);
    assert(s3[1int + 1int] == s2[1int + 1int]);
    assert(s2[1int + 1int] == p2[0]);
    assert(s4[1int + 1int + 1int] == s3[1int + 1int + 1int]);
    assert(s3[1int + 1int + 1int] == p3[0]);
    assert(s4[1int + 1int + 1int + 1int] == p4[0]);
}

/// A support mint account gives no edge.
pub proof fn lemma_raydium_support_mint_links(h: AccountHeader, data: Seq<u8>)
    requires
        has_discriminator(support_mint_associated_disc(), data),
    ensures
        raydium_edges(h, data).len() == 0,
{
    lemma_raydium_kinds_exclusive(data);
}

/// An operation state links, in order, to each of its 10 operation owners
/// (stored one after the other from offset 9) and then to each of its 100
/// whitelisted mints (from offset 329) that is not the system program, and to
/// nothing else: within each run, the edge of the `j`-th address comes right
/// after those of the non-system addresses before it.
pub proof fn lemma_raydium_operation_state_links(h: AccountHeader, data: Seq<u8>)
    requires
        has_discriminator(operation_state_disc(), data),
    ensures
        ({
            let e = raydium_edges(h, data);
            let owners = nonsystem_before(data, 9, 10);
            &&& e.len() == owners + nonsystem_before(data, 329, 100)
            &&& forall|j: int|
                0 <= j < 10 && key_at(data, 9 + 32 * j) != zero_key() ==> #[trigger] e[nonsystem_before(
                    data,
                    9,
                    j as nat,
                ) as int] == link(h.slot, WEIGHT_DIRECT, h.pubkey@, key_at(data, 9 + 32 * j))
            &&& forall|j: int|
                0 <= j < 100 && key_at(data, 329 + 32 * j) != zero_key() ==> #[trigger] e[owners
                    + nonsystem_before(data, 329, j as nat) as int] == link(
                    h.slot,
                    WEIGHT_DIRECT,
                    h.pubkey@,
                    key_at(data, 329 + 32 * j),
                )
        }),
{
    lemma_raydium_kinds_exclusive(data);
    lemma_outs_unless_system_every_address(h, WEIGHT_DIRECT, data, 9, 10);
    lemma_outs_unless_system_every_address(h, WEIGHT_DIRECT, data, 329, 100);
    let a = outs_unless_system(h, WEIGHT_DIRECT, data, 9, 10);
    let b = outs_unless_system(h, WEIGHT_DIRECT, data, 329, 100);
    let e = raydium_edges(h, data);
    assert(e == a + b);
    let owners = nonsystem_before(data, 9, 10);
    assert forall|j: int| 0 <= j < 10 && key_at(data, 9 + 32 * j) != zero_key() implies #[trigger] e[nonsystem_before(
        data,
        9,
        j as nat,
    ) as int] == link(h.slot, WEIGHT_DIRECT, h.pubkey@, key_at(data, 9 + 32 * j)) by {
        lemma_nonsystem_before_monotone(data, 9, (j + 1) as nat, 10);
        assert(nonsystem_before(data, 9, (j + 1) as nat) == nonsystem_before(data, 9, j as nat) + 1);
        assert((a + b)[nonsystem_before(data, 9, j as nat) as int] == a[nonsystem_before(data, 9, j as nat) as int]);
    }
    assert forall|j: int| 0 <= j < 100 && key_at(data, 329 + 32 * j) != zero_key() implies #[trigger] e[owners
        + nonsystem_before(data, 329, j as nat) as int] == link(
        h.slot,
        WEIGHT_DIRECT,
        h.pubkey@,
        key_at(data, 329 + 32 * j),
    ) by {
        lemma_nonsystem_before_monotone(data, 329, (j + 1) as nat, 100);
        assert(nonsystem_before(data, 329, (j + 1) as nat) == nonsystem_before(data, 329, j as nat) + 1);
        assert((a + b)[owners + nonsystem_before(data, 329, j as nat) as int] == b[nonsystem_before(data, 329, j as nat) as int]);
    }
}

/// Edge generator for accounts of the Raydium concentrated liquidity program,
/// recognized by their discriminators.
pub struct Raydium {
    d_amm_config: [u8; 8],
    d_observation_state: [u8; 8],
    d_operation_state: [u8; 8],
    d_personal_position_state: [u8; 8],
    d_pool_state: [u8; 8],
    d_protocol_position_state: [u8; 8],
    d_support_mint_associated: [u8; 8],
    d_tick_array_bitmap_extension: [u8; 8],
    d_tick_array_state: [u8; 8],
    pub program_id: Pubkey,
}

impl Raydium {
    /// The filter holds the discriminators of the program.
    pub closed spec fn wf(&self) -> bool {
        &&& self.d_amm_config@ == amm_config_disc()
        &&& self.d_observation_state@ == observation_state_disc()
        &&& self.d_operation_state@ == operation_state_disc()
        &&& self.d_personal_position_state@ == personal_position_state_disc()
        &&& self.d_pool_state@ == pool_state_disc()
        &&& self.d_protocol_position_state@ == protocol_position_state_disc()
        &&& self.d_support_mint_associated@ == support_mint_associated_disc()
        &&& self.d_tick_array_bitmap_extension@ == tick_array_bitmap_extension_disc()
        &&& self.d_tick_array_state@ == tick_array_state_disc()
    }

    /// The address of the program that the filter serves.
    pub closed spec fn program(&self) -> Seq<u8> {
        self.program_id@
    }

    pub fn new(program_id: &Pubkey) -> (s: Self)
        ensures
            s.wf(),
            s.program() == program_id@,
    {
        let d_amm_config = discriminator_amm_config();
        let d_observation_state = discriminator_observation_state();
        let d_operation_state = discriminator_operation_state();
        let d_personal_position_state = discriminator_personal_position_state();
        let d_pool_state = discriminator_pool_state();
        let d_protocol_position_state = discriminator_protocol_position_state();
        let d_support_mint_associated = discriminator_support_mint_associated();
        let d_tick_array_bitmap_extension = discriminator_tick_array_bitmap_extension();
        let d_tick_array_state = discriminator_tick_array_state();
        Self { program_id: *program_id, d_amm_config, d_observation_state, d_operation_state, d_personal_position_state, d_pool_state, d_protocol_position_state, d_support_mint_associated, d_tick_array_bitmap_extension, d_tick_array_state }
    }

    /// The programs whose accounts this filter reads.
    pub fn program_id_list(&self) -> (v: Vec<Pubkey>)
        ensures
            v@.len() == 1,
            v@[0]@ == self.program(),
    {
        vec![self.program_id]
    }

    /// The smallest data length that `edge` needs for this account data.
    fn needed_len(&self, data: &[u8]) -> (n: usize)
        requires
            self.wf(),
        ensures
            n == raydium_needed_len(data@),
    {
        if match_discriminator(&self.d_amm_config, data) {
            93
        } else if match_discriminator(&self.d_protocol_position_state, data) {
            41
        } else if match_discriminator(&self.d_support_mint_associated, data) {
            0
        } else if match_discriminator(&self.d_tick_array_state, data) {
            40
        } else if match_discriminator(&self.d_personal_position_state, data) {
            73
        } else if match_discriminator(&self.d_observation_state, data) {
            51
        } else if match_discriminator(&self.d_tick_array_bitmap_extension, data) {
            40
        } else if match_discriminator(&self.d_pool_state, data) {
            233
        } else if match_discriminator(&self.d_operation_state, data) {
            9 + 32 * (OPERATION_OWNERS + WHITELIST_MINTS)
        } else {
            0
        }
    }

    /// Whether `edge` can read this account data in full.
    pub fn readable(&self, data: &[u8]) -> (b: bool)
        requires
            self.wf(),
        ensures
            b == (data@.len() >= raydium_needed_len(data@)),
    {
        data.len() >= self.needed_len(data)
    }

    /// Lists the edges that the account implies.
    pub fn edge(&self, header: &AccountHeader, data: &[u8]) -> (list: VecDeque<FilterEdge>)
        requires
            self.wf(),
            data@.len() >= raydium_needed_len(data@),
        ensures
            edges_view(list@) == raydium_edges(*header, data@),
    {
        let mut list: VecDeque<FilterEdge> = VecDeque::new();
        assert(edges_view(list@) =~= Seq::<EdgeView>::empty());
        if match_discriminator(&self.d_amm_config, data) {
            // protocol owner
            push_in(&mut list, header, WEIGHT_SYMLINK, data, 11);
            // fund owner
            push_out(&mut list, header, WEIGHT_DIRECT, data, 61);
        } else if match_discriminator(&self.d_protocol_position_state, data) {
            // pool
            push_in(&mut list, header, WEIGHT_DIRECT, data, 9);
        } else if match_discriminator(&self.d_support_mint_associated, data) {
            // mint edges are skipped
        } else if match_discriminator(&self.d_tick_array_state, data) {
            // pool
            push_in(&mut list, header, WEIGHT_DIRECT, data, 8);
        } else if match_discriminator(&self.d_personal_position_state, data) {
            // nft mint
            push_in(&mut list, header, WEIGHT_SYMLINK, data, 9);
            // pool
            push_in(&mut list, header, WEIGHT_DIRECT, data, 41);
        } else if match_discriminator(&self.d_observation_state, data) {
            // pool
            push_in(&mut list, header, WEIGHT_DIRECT, data, 19);
        } else if match_discriminator(&self.d_tick_array_bitmap_extension, data) {
            // pool id
            push_in(&mut list, header, WEIGHT_DIRECT, data, 8);
        } else if match_discriminator(&self.d_pool_state, data) {
            // amm config
            push_in(&mut list, header, WEIGHT_DIRECT, data, 9);
            // owner
            push_out(&mut list, header, WEIGHT_DIRECT, data, 41);
            // token vault 0
            push_out(&mut list, header, WEIGHT_DIRECT, data, 137);
            // token vault 1
            push_out(&mut list, header, WEIGHT_DIRECT, data, 169);
            // observation account
            push_out(&mut list, header, WEIGHT_DIRECT, data, 201);
        } else if match_discriminator(&self.d_operation_state, data) {
            // operation owners
            push_outs_unless_system(&mut list, header, WEIGHT_DIRECT, data, 9, OPERATION_OWNERS);
            // whitelist mints
            push_outs_unless_system(
                &mut list,
                header,
                WEIGHT_DIRECT,
                data,
                9 + 32 * OPERATION_OWNERS,
                WHITELIST_MINTS,
            );
        }
        list
    }
}

/// Discriminator of the `AmmConfig` account.
pub fn discriminator_amm_config() -> (d: [u8; 8])
    ensures
        d@ == amm_config_disc(),
{
    let d = [218, 244, 33, 104, 203, 203, 43, 111];
    assert(d@ =~= amm_config_disc());
    d
}

/// Discriminator of the `ObservationState` account.
pub fn discriminator_observation_state() -> (d: [u8; 8])
    ensures
        d@ == observation_state_disc(),
{
    let d = [122, 174, 197, 53, 129, 9, 165, 132];
    assert(d@ =~= observation_state_disc());
    d
}

/// Discriminator of the `OperationState` account.
pub fn discriminator_operation_state() -> (d: [u8; 8])
    ensures
        d@ == operation_state_disc(),
{
    let d = [19, 236, 58, 237, 81, 222, 183, 252];
    assert(d@ =~= operation_state_disc());
    d
}

/// Discriminator of the `PersonalPositionState` account.
pub fn discriminator_personal_position_state() -> (d: [u8; 8])
    ensures
        d@ == personal_position_state_disc(),
{
    let d = [70, 111, 150, 126, 230, 15, 25, 117];
    assert(d@ =~= personal_position_state_disc());
    d
}

/// Discriminator of the `PoolState` account.
pub fn discriminator_pool_state() -> (d: [u8; 8])
    ensures
        d@ == pool_state_disc(),
{
    let d = [247, 237, 227, 245, 215, 195, 222, 70];
    assert(d@ =~= pool_state_disc());
    d
}

/// Discriminator of the `ProtocolPositionState` account.
pub fn discriminator_protocol_position_state() -> (d: [u8; 8])
    ensures
        d@ == protocol_position_state_disc(),
{
    let d = [100, 226, 145, 99, 146, 218, 160, 106];
    assert(d@ =~= protocol_position_state_disc());
    d
}

/// Discriminator of the `SupportMintAssociated` account.
pub fn discriminator_support_mint_associated() -> (d: [u8; 8])
    ensures
        d@ == support_mint_associated_disc(),
{
    let d = [134, 40, 183, 79, 12, 112, 162, 53];
    assert(d@ =~= support_mint_associated_disc());
    d
}

/// Discriminator of the `TickArrayBitmapExtension` account.
pub fn discriminator_tick_array_bitmap_extension() -> (d: [u8; 8])
    ensures
        d@ == tick_array_bitmap_extension_disc(),
{
    let d = [60, 150, 36, 219, 97, 128, 139, 153];
    assert(d@ =~= tick_array_bitmap_extension_disc());
    d
}

/// Discriminator of the `TickArrayState` account.
pub fn discriminator_tick_array_state() -> (d: [u8; 8])
    ensures
        d@ == tick_array_state_disc(),
{
    let d = [192, 155, 85, 205, 49, 249, 129, 42];
    assert(d@ =~= tick_array_state_disc());
    d
}

} // verus!
