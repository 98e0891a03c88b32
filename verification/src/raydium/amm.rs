//! Filter for the Raydium AMM v4 program (not an Anchor program).
//!
//! An `AmmInfo` is 752 bytes (`repr(C, packed)`); it stores the coin vault at
//! offset 336, the PC vault at 368, the open orders at 496, the market at 528,
//! the target orders at 592, the withdraw queue at 624 and the owner at 688.
use std::collections::VecDeque;
use vstd::prelude::*;

use crate::primitive::header::AccountHeader;
use crate::primitive::provenance::{edges_avoid_system, edges_sound, group_avoids, group_sound};
use crate::primitive::pubkey::{key_at, zero_key, Pubkey};
use crate::primitive::tree::{
    edges_view, in_from, in_unless_system, link, out_unless_system, push_in_unless_system, push_link,
    push_out_unless_system, EdgeView, FilterEdge, WEIGHT_DIRECT,
};

verus! {

/// Size of an `AmmInfo`.
pub const AMM_INFO_SIZE: usize = 752;

pub const OFF_COIN_VAULT: usize = 336;

pub const OFF_PC_VAULT: usize = 368;

pub const OFF_OPEN_ORDERS: usize = 496;

pub const OFF_MARKET: usize = 528;

pub const OFF_TARGET_ORDERS: usize = 592;

pub const OFF_WITHDRAW_QUEUE: usize = 624;

pub const OFF_OWNER: usize = 688;

/// The edges of a pool (data of exactly the `AmmInfo` size), skipping
/// system-program addresses: from the program; to the coin vault, PC vault,
/// open orders, market, target orders and withdraw queue; from the owner.
pub open spec fn raydium_amm_edges(program_id: Seq<u8>, h: AccountHeader, data: Seq<u8>) -> Seq<EdgeView> {
    if data.len() == AMM_INFO_SIZE {
        in_from(h, WEIGHT_DIRECT, program_id) + out_unless_system(h, WEIGHT_DIRECT, data, OFF_COIN_VAULT as int)
            + out_unless_system(h, WEIGHT_DIRECT, data, OFF_PC_VAULT as int) + out_unless_system(
            h,
            WEIGHT_DIRECT,
            data,
            OFF_OPEN_ORDERS as int,
        ) + out_unless_system(h, WEIGHT_DIRECT, data, OFF_MARKET as int) + out_unless_system(
            h,
            WEIGHT_DIRECT,
            data,
            OFF_TARGET_ORDERS as int,
        ) + out_unless_system(h, WEIGHT_DIRECT, data, OFF_WITHDRAW_QUEUE as int) + in_unless_system(
            h,
            WEIGHT_DIRECT,
            data,
            OFF_OWNER as int,
        )
    } else {
        seq![]
    }
}

/// Every edge of a pool is at the account's slot, touches the account, and links
/// it to the program or to an address stored in its data.
/// No end of an edge that is read from the data is the system program.
pub proof fn lemma_raydium_amm_edges_sound(program_id: Seq<u8>, h: AccountHeader, data: Seq<u8>)
    ensures
        edges_sound(raydium_amm_edges(program_id, h, data), h, data, set![program_id]),
        edges_avoid_system(raydium_amm_edges(program_id, h, data), h, set![program_id]),
{
    broadcast use group_sound, group_avoids;

    assert(set![program_id].contains(program_id));
}

/// An AMM v4 account of 752 bytes is linked from the program, then links, in
/// order, to its coin vault (offset 336), pc vault (368), open orders (496),
/// market (528), target orders (592) and withdraw queue (624), and is linked
/// from its owner (688); each stored address that is the system program is
/// skipped, and there is no other edge.
pub proof fn lemma_raydium_amm_links_its_fields(program_id: Seq<u8>, h: AccountHeader, data: Seq<u8>)
    requires
        data.len() == 752,
    ensures
        ({
            let e = raydium_amm_edges(program_id, h, data);
            let d = data;
            &&& e.len() == 1int + (if key_at(d, 336) != zero_key() { 1int } else { 0 }) + (if key_at(d, 368) != zero_key() { 1int } else { 0 }) + (if key_at(d, 496) != zero_key() { 1int } else { 0 }) + (if key_at(d, 528) != zero_key() { 1int } else { 0 }) + (if key_at(d, 592) != zero_key() { 1int } else { 0 }) + (if key_at(d, 624) != zero_key() { 1int } else { 0 }) + (if key_at(d, 688) != zero_key() { 1int } else { 0 })
            &&& e[0int] == link(h.slot, WEIGHT_DIRECT, program_id, h.pubkey@)
            &&& key_at(d, 336) != zero_key() ==> e[1int] == link(h.slot, WEIGHT_DIRECT, h.pubkey@, key_at(d, 336))
            &&& key_at(d, 368) != zero_key() ==> e[1int + (if key_at(d, 336) != zero_key() { 1int } else { 0 })] == link(h.slot, WEIGHT_DIRECT, h.pubkey@, key_at(d, 368))
            &&& key_at(d, 496) != zero_key() ==> e[1int + (if key_at(d, 336) != zero_key() { 1int } else { 0 }) + (if key_at(d, 368) != zero_key() { 1int } else { 0 })] == link(h.slot, WEIGHT_DIRECT, h.pubkey@, key_at(d, 496))
            &&& key_at(d, 528) != zero_key() ==> e[1int + (if key_at(d, 336) != zero_key() { 1int } else { 0 }) + (if key_at(d, 368) != zero_key() { 1int } else { 0 }) + (if key_at(d, 496) != zero_key() { 1int } else { 0 })] == link(h.slot, WEIGHT_DIRECT, h.pubkey@, key_at(d, 528))
            &&& key_at(d, 592) != zero_key() ==> e[1int + (if key_at(d, 336) != zero_key() { 1int } else { 0 }) + (if key_at(d, 368) != zero_key() { 1int } else { 0 }) + (if key_at(d, 496) != zero_key() { 1int } else { 0 }) + (if key_at(d, 528) != zero_key() { 1int } else { 0 })] == link(h.slot, WEIGHT_DIRECT, h.pubkey@, key_at(d, 592))
            &&& key_at(d, 624) != zero_key() ==> e[1int + (if key_at(d, 336) != zero_key() { 1int } else { 0 }) + (if key_at(d, 368) != zero_key() { 1int } else { 0 }) + (if key_at(d, 496) != zero_key() { 1int } else { 0 }) + (if key_at(d, 528) != zero_key() { 1int } else { 0 }) + (if key_at(d, 592) != zero_key() { 1int } else { 0 })] == link(h.slot, WEIGHT_DIRECT, h.pubkey@, key_at(d, 624))
            &&& key_at(d, 688) != zero_key() ==> e[1int + (if key_at(d, 336) != zero_key() { 1int } else { 0 }) + (if key_at(d, 368) != zero_key() { 1int } else { 0 }) + (if key_at(d, 496) != zero_key() { 1int } else { 0 }) + (if key_at(d, 528) != zero_key() { 1int } else { 0 }) + (if key_at(d, 592) != zero_key() { 1int } else { 0 }) + (if key_at(d, 624) != zero_key() { 1int } else { 0 })] == link(h.slot, WEIGHT_DIRECT, key_at(d, 688), h.pubkey@)
        }),
{
    let d = data;
    let p0 = in_from(h, WEIGHT_DIRECT, program_id);
    let p1 = out_unless_system(h, WEIGHT_DIRECT, d, 336);
    let p2 = out_unless_system(h, WEIGHT_DIRECT, d, 368);
    let p3 = out_unless_system(h, WEIGHT_DIRECT, d, 496);
    let p4 = out_unless_system(h, WEIGHT_DIRECT, d, 528);
    let p5 = out_unless_system(h, WEIGHT_DIRECT, d, 592);
    let p6 = out_unless_system(h, WEIGHT_DIRECT, d, 624);
    let p7 = in_unless_system(h, WEIGHT_DIRECT, d, 688);
    let s0 = p0;
    let s1 = s0 + p1;
    let s2 = s1 + p2;
    let s3 = s2 + p3;
    let s4 = s3 + p4;
    let s5 = s4 + p5;
    let s6 = s5 + p6;
    let s7 = s6 + p7;
    assert(raydium_amm_edges(program_id, h, data) == s7);
    assert(s7[0int] == s6[0int]);
    assert(s6[0int] == s5[0int]);
    assert(s5[0int] == s4[0int]);
    assert(s4[0int] == s3[0int]);
    assert(s3[0int] == s2[0int]);
    assert(s2[0int] == s1[0int]);
    assert(s1[0int] == s0[0int]);
    assert(s0[0int] == p0[0]);
    if key_at(d, 336) != zero_key() {
        assert(s7[1int] == s6[1int]);
        assert(s6[1int] == s5[1int]);
        assert(s5[1int] == s4[1int]);
        assert(s4[1int] == s3[1int]);
        assert(s3[1int] == s2[1int]);
        assert(s2[1int] == s1[1int]);
        assert(s1[1int] == p1[0]);
    }
    if key_at(d, 368) != zero_key() {
        assert(s7[1int + (if key_at(d, 336) != zero_key() { 1int } else { 0 })] == s6[1int + (if key_at(d, 336) != zero_key() { 1int } else { 0 })]);
        assert(s6[1int + (if key_at(d, 336) != zero_key() { 1int } else { 0 })] == s5[1int + (if key_at(d, 336) != zero_key() { 1int } else { 0 })]);
        assert(s5[1int + (if key_at(d, 336) != zero_key() { 1int } else { 0 })] == s4[1int + (if key_at(d, 336) != zero_key() { 1int } else { 0 })]);
        assert(s4[1int + (if key_at(d, 336) != zero_key() { 1int } else { 0 })] == s3[1int + (if key_at(d, 336) != zero_key() { 1int } else { 0 })]);
        assert(s3[1int + (if key_at(d, 336) != zero_key() { 1int } else { 0 })] == s2[1int + (if key_at(d, 336) != zero_key() { 1int } else { 0 })]);
        assert(s2[1int + (if key_at(d, 336) != zero_key() { 1int } else { 0 })] == p2[0]);
    }
    if key_at(d, 496) != zero_key() {
        assert(s7[1int + (if key_at(d, 336) != zero_key() { 1int } else { 0 }) + (if key_at(d, 368) != zero_key() { 1int } else { 0 })] == s6[1int + (if key_at(d, 336) != zero_key() { 1int } else { 0 }) + (if key_at(d, 368) != zero_key() { 1int } else { 0 })]);
        assert(s6[1int + (if key_at(d, 336) != zero_key() { 1int } else { 0 }) + (if key_at(d, 368) != zero_key() { 1int } else { 0 })] == s5[1int + (if key_at(d, 336) != zero_key() { 1int } else { 0 }) + (if key_at(d, 368) != zero_key() { 1int } else { 0 })]);
        assert(s5[1int + (if key_at(d, 336) != zero_key() { 1int } else { 0 }) + (if key_at(d, 368) != zero_key() { 1int } else { 0 })] == s4[1int + (if key_at(d, 336) != zero_key() { 1int } else { 0 }) + (if key_at(d, 368) != zero_key() { 1int } else { 0 })]);
        assert(s4[1int + (if key_at(d, 336) != zero_key() { 1int } else { 0 }) + (if key_at(d, 368) != zero_key() { 1int } else { 0 })] == s3[1int + (if key_at(d, 336) != zero_key() { 1int } else { 0 }) + (if key_at(d, 368) != zero_key() { 1int } else { 0 })]);
        assert(s3[1int + (if key_at(d, 336) != zero_key() { 1int } else { 0 }) + (if key_at(d, 368) != zero_key() { 1int } else { 0 })] == p3[0]);
    }
    if key_at(d, 528) != zero_key() {
        assert(s7[1int + (if key_at(d, 336) != zero_key() { 1int } else { 0 }) + (if key_at(d, 368) != zero_key() { 1int } else { 0 }) + (if key_at(d, 496) != zero_key() { 1int } else { 0 })] == s6[1int + (if key_at(d, 336) != zero_key() { 1int } else { 0 }) + (if key_at(d, 368) != zero_key() { 1int } else { 0 }) + (if key_at(d, 496) != zero_key() { 1int } else { 0 })]);
        assert(s6[1int + (if key_at(d, 336) != zero_key() { 1int } else { 0 }) + (if key_at(d, 368) != zero_key() { 1int } else { 0 }) + (if key_at(d, 496) != zero_key() { 1int } else { 0 })] == s5[1int + (if key_at(d, 336) != zero_key() { 1int } else { 0 }) + (if key_at(d, 368) != zero_key() { 1int } else { 0 }) + (if key_at(d, 496) != zero_key() { 1int } else { 0 })]);
        assert(s5[1int + (if key_at(d, 336) != zero_key() { 1int } else { 0 }) + (if key_at(d, 368) != zero_key() { 1int } else { 0 }) + (if key_at(d, 496) != zero_key() { 1int } else { 0 })] == s4[1int + (if key_at(d, 336) != zero_key() { 1int } else { 0 }) + (if key_at(d, 368) != zero_key() { 1int } else { 0 }) + (if key_at(d, 496) != zero_key() { 1int } else { 0 })]);
        assert(s4[1int + (if key_at(d, 336) != zero_key() { 1int } else { 0 }) + (if key_at(d, 368) != zero_key() { 1int } else { 0 }) + (if key_at(d, 496) != zero_key() { 1int } else { 0 })] == p4[0]);
    }
    if key_at(d, 592) != zero_key() {
        assert(s7[1int + (if key_at(d, 336) != zero_key() { 1int } else { 0 }) + (if key_at(d, 368) != zero_key() { 1int } else { 0 }) + (if key_at(d, 496) != zero_key() { 1int } else { 0 }) + (if key_at(d, 528) != zero_key() { 1int } else { 0 })] == s6[1int + (if key_at(d, 336) != zero_key() { 1int } else { 0 }) + (if key_at(d, 368) != zero_key() { 1int } else { 0 }) + (if key_at(d, 496) != zero_key() { 1int } else { 0 }) + (if key_at(d, 528) != zero_key() { 1int } else { 0 })]);
        assert(s6[1int + (if key_at(d, 336) != zero_key() { 1int } else { 0 }) + (if key_at(d, 368) != zero_key() { 1int } else { 0 }) + (if key_at(d, 496) != zero_key() { 1int } else { 0 }) + (if key_at(d, 528) != zero_key() { 1int } else { 0 })] == s5[1int + (if key_at(d, 336) != zero_key() { 1int } else { 0 }) + (if key_at(d, 368) != zero_key() { 1int } else { 0 }) + (if key_at(d, 496) != zero_key() { 1int } else { 0 }) + (if key_at(d, 528) != zero_key() { 1int } else { 0 })]);
        assert(s5[1int + (if key_at(d, 336) != zero_key() { 1int } else { 0 }) + (if key_at(d, 368) != zero_key() { 1int } else { 0 }) + (if key_at(d, 496) != zero_key() { 1int } else { 0 }) + (if key_at(d, 528) != zero_key() { 1int } else { 0 })] == p5[0]);
    }
    if key_at(d, 624) != zero_key() {
        assert(s7[1int + (if key_at(d, 336) != zero_key() { 1int } else { 0 }) + (if key_at(d, 368) != zero_key() { 1int } else { 0 }) + (if key_at(d, 496) != zero_key() { 1int } else { 0 }) + (if key_at(d, 528) != zero_key() { 1int } else { 0 }) + (if key_at(d, 592) != zero_key() { 1int } else { 0 })] == s6[1int + (if key_at(d, 336) != zero_key() { 1int } else { 0 }) + (if key_at(d, 368) != zero_key() { 1int } else { 0 }) + (if key_at(d, 496) != zero_key() { 1int } else { 0 }) + (if key_at(d, 528) != zero_key() { 1int } else { 0 }) + (if key_at(d, 592) != zero_key() { 1int } else { 0 })]);
        assert(s6[1int + (if key_at(d, 336) != zero_key() { 1int } else { 0 }) + (if key_at(d, 368) != zero_key() { 1int } else { 0 }) + (if key_at(d, 496) != zero_key() { 1int } else { 0 }) + (if key_at(d, 528) != zero_key() { 1int } else { 0 }) + (if key_at(d, 592) != zero_key() { 1int } else { 0 })] == p6[0]);
    }
    if key_at(d, 688) != zero_key() {
        assert(s7[1int + (if key_at(d, 336) != zero_key() { 1int } else { 0 }) + (if key_at(d, 368) != zero_key() { 1int } else { 0 }) + (if key_at(d, 496) != zero_key() { 1int } else { 0 }) + (if key_at(d, 528) != zero_key() { 1int } else { 0 }) + (if key_at(d, 592) != zero_key() { 1int } else { 0 }) + (if key_at(d, 624) != zero_key() { 1int } else { 0 })] == p7[0]);
    }
}

/// Edge generator for pools of the Raydium AMM v4 program.
pub struct RaydiumAmm {
    len_amminfo: usize,
    pub program_id: Pubkey,
}

impl RaydiumAmm {
    /// The filter holds the size of the pool layout.
    pub closed spec fn wf(&self) -> bool {
        self.len_amminfo == AMM_INFO_SIZE
    }

    /// The address of the program that the filter serves.
    pub closed spec fn program(&self) -> Seq<u8> {
        self.program_id@
    }

    pub fn new(program_id: &Pubkey) -> (s: Self)
        ensures
            s.wf(),
            s.program() == program_id@,
    {
        Self { len_amminfo: AMM_INFO_SIZE, program_id: *program_id }
    }

    /// The programs whose accounts this filter reads.
    pub fn program_id_list(&self) -> (v: Vec<Pubkey>)
        ensures
            v@.len() == 1,
            v@[0]@ == self.program(),
    {
        vec![self.program_id]
    }

    /// Lists the edges that the account implies.
    pub fn edge(&self, header: &AccountHeader, data: &[u8]) -> (list: VecDeque<FilterEdge>)
        requires
            self.wf(),
        ensures
            edges_view(list@) == raydium_amm_edges(self.program(), *header, data@),
    {
        let mut list: VecDeque<FilterEdge> = VecDeque::new();
        let id = header.pubkey;
        assert(edges_view(list@) =~= Seq::<EdgeView>::empty());
        if self.len_amminfo != data.len() {
            return list;
        }
        // program -> pool
        push_link(&mut list, header.slot, WEIGHT_DIRECT, self.program_id, id);
        push_out_unless_system(&mut list, header, WEIGHT_DIRECT, data, OFF_COIN_VAULT);
        push_out_unless_system(&mut list, header, WEIGHT_DIRECT, data, OFF_PC_VAULT);
        push_out_unless_system(&mut list, header, WEIGHT_DIRECT, data, OFF_OPEN_ORDERS);
        push_out_unless_system(&mut list, header, WEIGHT_DIRECT, data, OFF_MARKET);
        push_out_unless_system(&mut list, header, WEIGHT_DIRECT, data, OFF_TARGET_ORDERS);
        push_out_unless_system(&mut list, header, WEIGHT_DIRECT, data, OFF_WITHDRAW_QUEUE);
        push_in_unless_system(&mut list, header, WEIGHT_DIRECT, data, OFF_OWNER);
        list
    }
}

} // verus!
