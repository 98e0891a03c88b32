//! Filter for the Kamino lending (klend) program.
//!
//! Accounts are told apart by the length of the data after the 8-byte
//! discriminator: a `LendingMarket` is 4656 bytes and a `Reserve` 8616 bytes,
//! the sizes of the `repr(C)` layouts of klend.
use std::collections::VecDeque;
use vstd::prelude::*;
use vstd::slice::slice_subrange;

use crate::primitive::header::AccountHeader;
use crate::primitive::provenance::{edges_avoid_system, edges_sound, group_avoids, group_sound, lemma_sound_after_prefix};
use crate::primitive::pubkey::{key_at, zero_key, Pubkey};
use crate::primitive::tree::{
    edges_view, in_from, link, in_unless_system, out_unless_system, push_in_unless_system, push_link,
    push_out_unless_system, EdgeView, FilterEdge, WEIGHT_DIRECT,
};

verus! {

/// Size of a `LendingMarket` after the discriminator.
pub const LENDING_MARKET_SIZE: usize = 4656;

/// Size of a `Reserve` after the discriminator.
pub const RESERVE_SIZE: usize = 8616;

/// `LendingMarket::lending_market_owner`.
pub const OFF_LM_OWNER: usize = 16;

/// `LendingMarket::emergency_council`.
pub const OFF_LM_EMERGENCY_COUNCIL: usize = 152;

/// `LendingMarket::permissioning_authority`.
pub const OFF_LM_PERMISSIONING_AUTHORITY: usize = 3392;

/// `Reserve::lending_market`.
pub const OFF_RESERVE_LENDING_MARKET: usize = 24;

/// `Reserve::farm_collateral`.
pub const OFF_RESERVE_FARM_COLLATERAL: usize = 56;

/// `Reserve::farm_debt`.
pub const OFF_RESERVE_FARM_DEBT: usize = 88;

/// `Reserve::liquidity.supply_vault`.
pub const OFF_RESERVE_LIQUIDITY_SUPPLY_VAULT: usize = 152;

/// `Reserve::liquidity.fee_vault`.
pub const OFF_RESERVE_LIQUIDITY_FEE_VAULT: usize = 184;

/// `Reserve::collateral.supply_vault`.
pub const OFF_RESERVE_COLLATERAL_SUPPLY_VAULT: usize = 2592;

/// The edges of a klend account, read after the discriminator and skipping
/// system-program addresses:
/// - a lending market is linked from the program, its owner, its emergency
///   council and its permissioning authority;
/// - a reserve is linked from its lending market and links to its debt farm,
///   collateral farm, liquidity supply vault, fee vault and collateral supply vault.
pub open spec fn kamino_edges(program_id: Seq<u8>, h: AccountHeader, anchor_data: Seq<u8>) -> Seq<EdgeView> {
    let data = anchor_data.subrange(8, anchor_data.len() as int);
    if anchor_data.len() < 8 {
        seq![]
    } else if data.len() == LENDING_MARKET_SIZE {
        in_from(h, WEIGHT_DIRECT, program_id) + in_unless_system(h, WEIGHT_DIRECT, data, OFF_LM_OWNER as int)
            + in_unless_system(h, WEIGHT_DIRECT, data, OFF_LM_EMERGENCY_COUNCIL as int)
            + in_unless_system(h, WEIGHT_DIRECT, data, OFF_LM_PERMISSIONING_AUTHORITY as int)
    } else if data.len() == RESERVE_SIZE {
        in_unless_system(h, WEIGHT_DIRECT, data, OFF_RESERVE_LENDING_MARKET as int)
            + out_unless_system(h, WEIGHT_DIRECT, data, OFF_RESERVE_FARM_DEBT as int)
            + out_unless_system(h, WEIGHT_DIRECT, data, OFF_RESERVE_FARM_COLLATERAL as int)
            + out_unless_system(h, WEIGHT_DIRECT, data, OFF_RESERVE_LIQUIDITY_SUPPLY_VAULT as int)
            + out_unless_system(h, WEIGHT_DIRECT, data, OFF_RESERVE_LIQUIDITY_FEE_VAULT as int)
            + out_unless_system(h, WEIGHT_DIRECT, data, OFF_RESERVE_COLLATERAL_SUPPLY_VAULT as int)
    } else {
        seq![]
    }
}

/// Every edge of an account of the program is at the account's slot, touches
/// the account, and links it to the program or to an address stored in its data.
/// No end of an edge that is read from the data is the system program.
pub proof fn lemma_kamino_edges_sound(program_id: Seq<u8>, h: AccountHeader, anchor_data: Seq<u8>)
    ensures
        edges_sound(kamino_edges(program_id, h, anchor_data), h, anchor_data, set![program_id]),
        edges_avoid_system(kamino_edges(program_id, h, anchor_data), h, set![program_id]),
{
    broadcast use group_sound, group_avoids;

    assert(set![program_id].contains(program_id));
    if anchor_data.len() >= 8 {
        let data = anchor_data.subrange(8, anchor_data.len() as int);
        assert(edges_sound(kamino_edges(program_id, h, anchor_data), h, data, set![program_id]));
        lemma_sound_after_prefix(kamino_edges(program_id, h, anchor_data), h, anchor_data, 8, set![program_id]);
    }
}

/// A Kamino lending market (4656 bytes after the discriminator) is linked from
/// the program, then from its owner (offset 16), its emergency council (152)
/// and its permissioning authority (3392), each unless it is the system
/// program; there is no other edge.
pub proof fn lemma_kamino_lending_market_links(program_id: Seq<u8>, h: AccountHeader, anchor_data: Seq<u8>)
    requires
        anchor_data.len() == 8 + 4656,
    ensures
        ({
            let e = kamino_edges(program_id, h, anchor_data);
            let d = anchor_data.subrange(8, anchor_data.len() as int);
            &&& e.len() == 1int + (if key_at(d, 16) != zero_key() { 1int } else { 0 }) + (if key_at(d, 152) != zero_key() { 1int } else { 0 }) + (if key_at(d, 3392) != zero_key() { 1int } else { 0 })
            &&& e[0int] == link(h.slot, WEIGHT_DIRECT, program_id, h.pubkey@)
            &&& key_at(d, 16) != zero_key() ==> e[1int] == link(h.slot, WEIGHT_DIRECT, key_at(d, 16), h.pubkey@)
            &&& key_at(d, 152) != zero_key() ==> e[1int + (if key_at(d, 16) != zero_key() { 1int } else { 0 })] == link(h.slot, WEIGHT_DIRECT, key_at(d, 152), h.pubkey@)
            &&& key_at(d, 3392) != zero_key() ==> e[1int + (if key_at(d, 16) != zero_key() { 1int } else { 0 }) + (if key_at(d, 152) != zero_key() { 1int } else { 0 })] == link(h.slot, WEIGHT_DIRECT, key_at(d, 3392), h.pubkey@)
        }),
{
    let d = anchor_data.subrange(8, anchor_data.len() as int);
    let p0 = in_from(h, WEIGHT_DIRECT, program_id);
    let p1 = in_unless_system(h, WEIGHT_DIRECT, d, 16);
    let p2 = in_unless_system(h, WEIGHT_DIRECT, d, 152);
    let p3 = in_unless_system(h, WEIGHT_DIRECT, d, 3392);
    let s0 = p0;
    let s1 = s0 + p1;
    let s2 = s1 + p2;
    let s3 = s2 + p3;
    assert(kamino_edges(program_id, h, anchor_data) == s3);
    assert(s3[0int] == s2[0int]);
    assert(s2[0int] == s1[0int]);
    assert(s1[0int] == s0[0int]);
    assert(s0[0int] == p0[0]);
    if key_at(d, 16) != zero_key() {
        assert(s3[1int] == s2[1int]);
        assert(s2[1int] == s1[1int]);
        assert(s1[1int] == p1[0]);
    }
    if key_at(d, 152) != zero_key() {
        assert(s3[1int + (if key_at(d, 16) != zero_key() { 1int } else { 0 })] == s2[1int + (if key_at(d, 16) != zero_key() { 1int } else { 0 })]);
        assert(s2[1int + (if key_at(d, 16) != zero_key() { 1int } else { 0 })] == p2[0]);
    }
    if key_at(d, 3392) != zero_key() {
        assert(s3[1int + (if key_at(d, 16) != zero_key() { 1int } else { 0 }) + (if key_at(d, 152) != zero_key() { 1int } else { 0 })] == p3[0]);
    }
}

/// A Kamino reserve (8616 bytes after the discriminator) is linked from its
/// lending market (offset 24), then links to its debt farm (88), collateral
/// farm (56), liquidity supply vault (152), liquidity fee vault (184) and
/// collateral supply vault (2592), in that order; each stored address that is
/// the system program is skipped, and there is no other edge.
pub proof fn lemma_kamino_reserve_links(program_id: Seq<u8>, h: AccountHeader, anchor_data: Seq<u8>)
    requires
        anchor_data.len() == 8 + 8616,
    ensures
        ({
            let e = kamino_edges(program_id, h, anchor_data);
            let d = anchor_data.subrange(8, anchor_data.len() as int);
            &&& e.len() == (if key_at(d, 24) != zero_key() { 1int } else { 0 }) + (if key_at(d, 88) != zero_key() { 1int } else { 0 }) + (if key_at(d, 56) != zero_key() { 1int } else { 0 }) + (if key_at(d, 152) != zero_key() { 1int } else { 0 }) + (if key_at(d, 184) != zero_key() { 1int } else { 0 }) + (if key_at(d, 2592) != zero_key() { 1int } else { 0 })
            &&& key_at(d, 24) != zero_key() ==> e[0int] == link(h.slot, WEIGHT_DIRECT, key_at(d, 24), h.pubkey@)
            &&& key_at(d, 88) != zero_key() ==> e[(if key_at(d, 24) != zero_key() { 1int } else { 0 })] == link(h.slot, WEIGHT_DIRECT, h.pubkey@, key_at(d, 88))
            &&& key_at(d, 56) != zero_key() ==> e[(if key_at(d, 24) != zero_key() { 1int } else { 0 }) + (if key_at(d, 88) != zero_key() { 1int } else { 0 })] == link(h.slot, WEIGHT_DIRECT, h.pubkey@, key_at(d, 56))
            &&& key_at(d, 152) != zero_key() ==> e[(if key_at(d, 24) != zero_key() { 1int } else { 0 }) + (if key_at(d, 88) != zero_key() { 1int } else { 0 }) + (if key_at(d, 56) != zero_key() { 1int } else { 0 })] == link(h.slot, WEIGHT_DIRECT, h.pubkey@, key_at(d, 152))
            &&& key_at(d, 184) != zero_key() ==> e[(if key_at(d, 24) != zero_key() { 1int } else { 0 }) + (if key_at(d, 88) != zero_key() { 1int } else { 0 }) + (if key_at(d, 56) != zero_key() { 1int } else { 0 }) + (if key_at(d, 152) != zero_key() { 1int } else { 0 })] == link(h.slot, WEIGHT_DIRECT, h.pubkey@, key_at(d, 184))
            &&& key_at(d, 2592) != zero_key() ==> e[(if key_at(d, 24) != zero_key() { 1int } else { 0 }) + (if key_at(d, 88) != zero_key() { 1int } else { 0 }) + (if key_at(d, 56) != zero_key() { 1int } else { 0 }) + (if key_at(d, 152) != zero_key() { 1int } else { 0 }) + (if key_at(d, 184) != zero_key() { 1int } else { 0 })] == link(h.slot, WEIGHT_DIRECT, h.pubkey@, key_at(d, 2592))
        }),
{
    let d = anchor_data.subrange(8, anchor_data.len() as int);
    let p0 = in_unless_system(h, WEIGHT_DIRECT, d, 24);
    let p1 = out_unless_system(h, WEIGHT_DIRECT, d, 88);
    let p2 = out_unless_system(h, WEIGHT_DIRECT, d, 56);
    let p3 = out_unless_system(h, WEIGHT_DIRECT, d, 152);
    let p4 = out_unless_system(h, WEIGHT_DIRECT, d, 184);
    let p5 = out_unless_system(h, WEIGHT_DIRECT, d, 2592);
    let s0 = p0;
    let s1 = s0 + p1;
    let s2 = s1 + p2;
    let s3 = s2 + p3;
    let s4 = s3 + p4;
    let s5 = s4 + p5;
    assert(kamino_edges(program_id, h, anchor_data) == s5);
    if key_at(d, 24) != zero_key() {
        assert(s5[0int] == s4[0int]);
        assert(s4[0int] == s3[0int]);
        assert(s3[0int] == s2[0int]);
        assert(s2[0int] == s1[0int]);
        assert(s1[0int] == s0[0int]);
        assert(s0[0int] == p0[0]);
    }
    if key_at(d, 88) != zero_key() {
        assert(s5[(if key_at(d, 24) != zero_key() { 1int } else { 0 })] == s4[(if key_at(d, 24) != zero_key() { 1int } else { 0 })]);
        assert(s4[(if key_at(d, 24) != zero_key() { 1int } else { 0 })] == s3[(if key_at(d, 24) != zero_key() { 1int } else { 0 })]);
        assert(s3[(if key_at(d, 24) != zero_key() { 1int } else { 0 })] == s2[(if key_at(d, 24) != zero_key() { 1int } else { 0 })]);
        assert(s2[(if key_at(d, 24) != zero_key() { 1int } else { 0 })] == s1[(if key_at(d, 24) != zero_key() { 1int } else { 0 })]);
        assert(s1[(if key_at(d, 24) != zero_key() { 1int } else { 0 })] == p1[0]);
    }
    if key_at(d, 56) != zero_key() {
        assert(s5[(if key_at(d, 24) != zero_key() { 1int } else { 0 }) + (if key_at(d, 88) != zero_key() { 1int } else { 0 })] == s4[(if key_at(d, 24) != zero_key() { 1int } else { 0 }) + (if key_at(d, 88) != zero_key() { 1int } else { 0 })]);
        assert(s4[(if key_at(d, 24) != zero_key() { 1int } else { 0 }) + (if key_at(d, 88) != zero_key() { 1int } else { 0 })] == s3[(if key_at(d, 24) != zero_key() { 1int } else { 0 }) + (if key_at(d, 88) != zero_key() { 1int } else { 0 })]);
        assert(s3[(if key_at(d, 24) != zero_key() { 1int } else { 0 }) + (if key_at(d, 88) != zero_key() { 1int } else { 0 })] == s2[(if key_at(d, 24) != zero_key() { 1int } else { 0 }) + (if key_at(d, 88) != zero_key() { 1int } else { 0 })]);
        assert(s2[(if key_at(d, 24) != zero_key() { 1int } else { 0 }) + (if key_at(d, 88) != zero_key() { 1int } else { 0 })] == p2[0]);
    }
    if key_at(d, 152) != zero_key() {
        assert(s5[(if key_at(d, 24) != zero_key() { 1int } else { 0 }) + (if key_at(d, 88) != zero_key() { 1int } else { 0 }) + (if key_at(d, 56) != zero_key() { 1int } else { 0 })] == s4[(if key_at(d, 24) != zero_key() { 1int } else { 0 }) + (if key_at(d, 88) != zero_key() { 1int } else { 0 }) + (if key_at(d, 56) != zero_key() { 1int } else { 0 })]);
        assert(s4[(if key_at(d, 24) != zero_key() { 1int } else { 0 }) + (if key_at(d, 88) != zero_key() { 1int } else { 0 }) + (if key_at(d, 56) != zero_key() { 1int } else { 0 })] == s3[(if key_at(d, 24) != zero_key() { 1int } else { 0 }) + (if key_at(d, 88) != zero_key() { 1int } else { 0 }) + (if key_at(d, 56) != zero_key() { 1int } else { 0 })]);
        assert(s3[(if key_at(d, 24) != zero_key() { 1int } else { 0 }) + (if key_at(d, 88) != zero_key() { 1int } else { 0 }) + (if key_at(d, 56) != zero_key() { 1int } else { 0 })] == p3[0]);
    }
    if key_at(d, 184) != zero_key() {
        assert(s5[(if key_at(d, 24) != zero_key() { 1int } else { 0 }) + (if key_at(d, 88) != zero_key() { 1int } else { 0 }) + (if key_at(d, 56) != zero_key() { 1int } else { 0 }) + (if key_at(d, 152) != zero_key() { 1int } else { 0 })] == s4[(if key_at(d, 24) != zero_key() { 1int } else { 0 }) + (if key_at(d, 88) != zero_key() { 1int } else { 0 }) + (if key_at(d, 56) != zero_key() { 1int } else { 0 }) + (if key_at(d, 152) != zero_key() { 1int } else { 0 })]);
        assert(s4[(if key_at(d, 24) != zero_key() { 1int } else { 0 }) + (if key_at(d, 88) != zero_key() { 1int } else { 0 }) + (if key_at(d, 56) != zero_key() { 1int } else { 0 }) + (if key_at(d, 152) != zero_key() { 1int } else { 0 })] == p4[0]);
    }
    if key_at(d, 2592) != zero_key() {
        assert(s5[(if key_at(d, 24) != zero_key() { 1int } else { 0 }) + (if key_at(d, 88) != zero_key() { 1int } else { 0 }) + (if key_at(d, 56) != zero_key() { 1int } else { 0 }) + (if key_at(d, 152) != zero_key() { 1int } else { 0 }) + (if key_at(d, 184) != zero_key() { 1int } else { 0 })] == p5[0]);
    }
}

/// Edge generator for accounts of the Kamino lending program.
pub struct Kamino {
    len_lending_market: usize,
    len_reserve: usize,
    program_id: Pubkey,
}

impl Kamino {
    /// The filter holds the sizes of the two account layouts.
    pub closed spec fn wf(&self) -> bool {
        &&& self.len_lending_market == LENDING_MARKET_SIZE
        &&& self.len_reserve == RESERVE_SIZE
    }

    /// The address of the program that the filter serves.
    pub closed spec fn program(&self) -> Seq<u8> {
        self.program_id@
    }

    pub fn new(program_id: &Pubkey) -> (s: Self)
        ensures
            s.wf(),
            s.program() == program_id@,
    {
        Self {
            program_id: *program_id,
            len_lending_market: LENDING_MARKET_SIZE,
            len_reserve: RESERVE_SIZE,
        }
    }

    /// The programs whose accounts this filter reads.
    pub fn program_id_list(&self) -> (v: Vec<Pubkey>)
        ensures
            v@.len() == 1,
            v@[0]@ == self.program(),
    {
        vec![self.program_id]
    }

    /// Lists the edges that the account implies.
    pub fn edge(&self, header: &AccountHeader, anchor_data: &[u8]) -> (list: VecDeque<FilterEdge>)
        requires
            self.wf(),
        ensures
            edges_view(list@) == kamino_edges(self.program(), *header, anchor_data@),
    {
        let mut list: VecDeque<FilterEdge> = VecDeque::new();
        let id = header.pubkey;
        assert(edges_view(list@) =~= Seq::<EdgeView>::empty());
        if anchor_data.len() < 8 {
            return list;
        }
        let data = slice_subrange(anchor_data, 8, anchor_data.len());
        if self.len_lending_market == data.len() {
            push_link(&mut list, header.slot, WEIGHT_DIRECT, self.program_id, id);
            push_in_unless_system(&mut list, header, WEIGHT_DIRECT, data, OFF_LM_OWNER);
            push_in_unless_system(&mut list, header, WEIGHT_DIRECT, data, OFF_LM_EMERGENCY_COUNCIL);
            push_in_unless_system(&mut list, header, WEIGHT_DIRECT, data, OFF_LM_PERMISSIONING_AUTHORITY);
        } else if self.len_reserve == data.len() {
            push_in_unless_system(&mut list, header, WEIGHT_DIRECT, data, OFF_RESERVE_LENDING_MARKET);
            push_out_unless_system(&mut list, header, WEIGHT_DIRECT, data, OFF_RESERVE_FARM_DEBT);
            push_out_unless_system(&mut list, header, WEIGHT_DIRECT, data, OFF_RESERVE_FARM_COLLATERAL);
            push_out_unless_system(
                &mut list,
                header,
                WEIGHT_DIRECT,
                data,
                OFF_RESERVE_LIQUIDITY_SUPPLY_VAULT,
            );
            push_out_unless_system(&mut list, header, WEIGHT_DIRECT, data, OFF_RESERVE_LIQUIDITY_FEE_VAULT);
            push_out_unless_system(
                &mut list,
                header,
                WEIGHT_DIRECT,
                data,
                OFF_RESERVE_COLLATERAL_SUPPLY_VAULT,
            );
        }
        list
    }
}

} // verus!
