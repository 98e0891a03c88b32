//! Filter for the Raydium constant product (CPMM) program, an Anchor program.
//!
//! After the discriminator, an `AmmConfig` is 228 bytes (`repr(C, packed)`)
//! with the protocol owner at 36 and the fund owner at 68; a `PoolState` is 629
//! bytes with the AMM config at 0, the pool creator at 32, the token vaults at
//! 64 and 96 and the observation account at 288.
use std::collections::VecDeque;
use vstd::prelude::*;
use vstd::slice::slice_subrange;

use crate::primitive::header::AccountHeader;
use crate::primitive::provenance::{edges_avoid_system, edges_sound, group_avoids, group_sound, lemma_sound_after_prefix};
use crate::primitive::pubkey::{key_at, zero_key, Pubkey};
use crate::primitive::tree::{
    edges_view, in_from, link, in_unless_system, out_unless_system, push_in_unless_system, push_link,
    push_out_unless_system, EdgeView, FilterEdge, WEIGHT_DIRECT, WEIGHT_PROGRAM,
};

verus! {

/// Size of an `AmmConfig` after the discriminator.
pub const AMM_CONFIG_SIZE: usize = 228;

/// Size of a `PoolState` after the discriminator.
pub const POOL_STATE_SIZE: usize = 629;

pub const OFF_CONFIG_PROTOCOL_OWNER: usize = 36;

pub const OFF_CONFIG_FUND_OWNER: usize = 68;

pub const OFF_POOL_AMM_CONFIG: usize = 0;

pub const OFF_POOL_CREATOR: usize = 32;

pub const OFF_POOL_TOKEN_0_VAULT: usize = 64;

pub const OFF_POOL_TOKEN_1_VAULT: usize = 96;

pub const OFF_POOL_OBSERVATION_KEY: usize = 288;

/// The edges of a CPMM account, read after the discriminator and skipping
/// system-program addresses:
/// - a config is linked from the program and from its fund and protocol owners;
/// - a pool is linked from its config and its observation account and links
///   to its creator and its two token vaults.
pub open spec fn raydium_cpmm_edges(program_id: Seq<u8>, h: AccountHeader, anchor_data: Seq<u8>) -> Seq<EdgeView> {
    let data = anchor_data.subrange(8, anchor_data.len() as int);
    if anchor_data.len() < 8 {
        seq![]
    } else if data.len() == AMM_CONFIG_SIZE {
        in_from(h, WEIGHT_PROGRAM, program_id) + in_unless_system(
            h,
            WEIGHT_DIRECT,
            data,
            OFF_CONFIG_FUND_OWNER as int,
        ) + in_unless_system(h, WEIGHT_DIRECT, data, OFF_CONFIG_PROTOCOL_OWNER as int)
    } else if data.len() == POOL_STATE_SIZE {
        in_unless_system(h, WEIGHT_DIRECT, data, OFF_POOL_AMM_CONFIG as int) + in_unless_system(
            h,
            WEIGHT_DIRECT,
            data,
            OFF_POOL_OBSERVATION_KEY as int,
        ) + out_unless_system(h, WEIGHT_DIRECT, data, OFF_POOL_CREATOR as int) + out_unless_system(
            h,
            WEIGHT_DIRECT,
            data,
            OFF_POOL_TOKEN_0_VAULT as int,
        ) + out_unless_system(h, WEIGHT_DIRECT, data, OFF_POOL_TOKEN_1_VAULT as int)
    } else {
        seq![]
    }
}

/// Every edge of an account of the program is at the account's slot, touches
/// the account, and links it to the program or to an address stored in its data.
/// No end of an edge that is read from the data is the system program.
pub proof fn lemma_raydium_cpmm_edges_sound(program_id: Seq<u8>, h: AccountHeader, anchor_data: Seq<u8>)
    ensures
        edges_sound(raydium_cpmm_edges(program_id, h, anchor_data), h, anchor_data, set![program_id]),
        edges_avoid_system(raydium_cpmm_edges(program_id, h, anchor_data), h, set![program_id]),
{
    broadcast use group_sound, group_avoids;

    assert(set![program_id].contains(program_id));
    if anchor_data.len() >= 8 {
        let data = anchor_data.subrange(8, anchor_data.len() as int);
        assert(edges_sound(raydium_cpmm_edges(program_id, h, anchor_data), h, data, set![program_id]));
        lemma_sound_after_prefix(raydium_cpmm_edges(program_id, h, anchor_data), h, anchor_data, 8, set![program_id]);
    }
}

/// A CPMM config (228 bytes after the discriminator) is linked from the program,
/// then from its fund owner (offset 68) and its protocol owner (offset 36),
/// each unless it is the system program; there is no other edge.
pub proof fn lemma_raydium_cpmm_config_links(program_id: Seq<u8>, h: AccountHeader, anchor_data: Seq<u8>)
    requires
        anchor_data.len() == 8 + 228,
    ensures
        ({
            let e = raydium_cpmm_edges(program_id, h, anchor_data);
            let d = anchor_data.subrange(8, anchor_data.len() as int);
            &&& e.len() == 1int + (if key_at(d, 68) != zero_key() { 1int } else { 0 }) + (if key_at(d, 36) != zero_key() { 1int } else { 0 })
            &&& e[0int] == link(h.slot, WEIGHT_PROGRAM, program_id, h.pubkey@)
            &&& key_at(d, 68) != zero_key() ==> e[1int] == link(h.slot, WEIGHT_DIRECT, key_at(d, 68), h.pubkey@)
            &&& key_at(d, 36) != zero_key() ==> e[1int + (if key_at(d, 68) != zero_key() { 1int } else { 0 })] == link(h.slot, WEIGHT_DIRECT, key_at(d, 36), h.pubkey@)
        }),
{
    let d = anchor_data.subrange(8, anchor_data.len() as int);
    let p0 = in_from(h, WEIGHT_PROGRAM, program_id);
    let p1 = in_unless_system(h, WEIGHT_DIRECT, d, 68);
    let p2 = in_unless_system(h, WEIGHT_DIRECT, d, 36);
    let s0 = p0;
    let s1 = s0 + p1;
    let s2 = s1 + p2;
    assert(raydium_cpmm_edges(program_id, h, anchor_data) == s2);
    assert(s2[0int] == s1[0int]);
    assert(s1[0int] == s0[0int]);
    assert(s0[0int] == p0[0]);
    if key_at(d, 68) != zero_key() {
        assert(s2[1int] == s1[1int]);
        assert(s1[1int] == p1[0]);
    }
    if key_at(d, 36) != zero_key() {
        assert(s2[1int + (if key_at(d, 68) != zero_key() { 1int } else { 0 })] == p2[0]);
    }
}

/// A CPMM pool (629 bytes after the discriminator) is linked from its config
/// (offset 0) and its observation account (288), then links to its creator
/// (32) and its two token vaults (64, 96), in that order; each stored address
/// that is the system program is skipped, and there is no other edge.
pub proof fn lemma_raydium_cpmm_pool_links(program_id: Seq<u8>, h: AccountHeader, anchor_data: Seq<u8>)
    requires
        anchor_data.len() == 8 + 629,
    ensures
        ({
            let e = raydium_cpmm_edges(program_id, h, anchor_data);
            let d = anchor_data.subrange(8, anchor_data.len() as int);
            &&& e.len() == (if key_at(d, 0) != zero_key() { 1int } else { 0 }) + (if key_at(d, 288) != zero_key() { 1int } else { 0 }) + (if key_at(d, 32) != zero_key() { 1int } else { 0 }) + (if key_at(d, 64) != zero_key() { 1int } else { 0 }) + (if key_at(d, 96) != zero_key() { 1int } else { 0 })
            &&& key_at(d, 0) != zero_key() ==> e[0int] == link(h.slot, WEIGHT_DIRECT, key_at(d, 0), h.pubkey@)
            &&& key_at(d, 288) != zero_key() ==> e[(if key_at(d, 0) != zero_key() { 1int } else { 0 })] == link(h.slot, WEIGHT_DIRECT, key_at(d, 288), h.pubkey@)
            &&& key_at(d, 32) != zero_key() ==> e[(if key_at(d, 0) != zero_key() { 1int } else { 0 }) + (if key_at(d, 288) != zero_key() { 1int } else { 0 })] == link(h.slot, WEIGHT_DIRECT, h.pubkey@, key_at(d, 32))
            &&& key_at(d, 64) != zero_key() ==> e[(if key_at(d, 0) != zero_key() { 1int } else { 0 }) + (if key_at(d, 288) != zero_key() { 1int } else { 0 }) + (if key_at(d, 32) != zero_key() { 1int } else { 0 })] == link(h.slot, WEIGHT_DIRECT, h.pubkey@, key_at(d, 64))
            &&& key_at(d, 96) != zero_key() ==> e[(if key_at(d, 0) != zero_key() { 1int } else { 0 }) + (if key_at(d, 288) != zero_key() { 1int } else { 0 }) + (if key_at(d, 32) != zero_key() { 1int } else { 0 }) + (if key_at(d, 64) != zero_key() { 1int } else { 0 })] == link(h.slot, WEIGHT_DIRECT, h.pubkey@, key_at(d, 96))
        }),
{
    let d = anchor_data.subrange(8, anchor_data.len() as int);
    let p0 = in_unless_system(h, WEIGHT_DIRECT, d, 0);
    let p1 = in_unless_system(h, WEIGHT_DIRECT, d, 288);
    let p2 = out_unless_system(h, WEIGHT_DIRECT, d, 32);
    let p3 = out_unless_system(h, WEIGHT_DIRECT, d, 64);
    let p4 = out_unless_system(h, WEIGHT_DIRECT, d, 96);
    let s0 = p0;
    let s1 = s0 + p1;
    let s2 = s1 + p2;
    let s3 = s2 + p3;
    let s4 = s3 + p4;
    assert(raydium_cpmm_edges(program_id, h, anchor_data) == s4);
    if key_at(d, 0) != zero_key() {
        assert(s4[0int] == s3[0int]);
        assert(s3[0int] == s2[0int]);
        assert(s2[0int] == s1[0int]);
        assert(s1[0int] == s0[0int]);
        assert(s0[0int] == p0[0]);
    }
    if key_at(d, 288) != zero_key() {
        assert(s4[(if key_at(d, 0) != zero_key() { 1int } else { 0 })] == s3[(if key_at(d, 0) != zero_key() { 1int } else { 0 })]);
        assert(s3[(if key_at(d, 0) != zero_key() { 1int } else { 0 })] == s2[(if key_at(d, 0) != zero_key() { 1int } else { 0 })]);
        assert(s2[(if key_at(d, 0) != zero_key() { 1int } else { 0 })] == s1[(if key_at(d, 0) != zero_key() { 1int } else { 0 })]);
        assert(s1[(if key_at(d, 0) != zero_key() { 1int } else { 0 })] == p1[0]);
    }
    if key_at(d, 32) != zero_key() {
        assert(s4[(if key_at(d, 0) != zero_key() { 1int } else { 0 }) + (if key_at(d, 288) != zero_key() { 1int } else { 0 })] == s3[(if key_at(d, 0) != zero_key() { 1int } else { 0 }) + (if key_at(d, 288) != zero_key() { 1int } else { 0 })]);
        assert(s3[(if key_at(d, 0) != zero_key() { 1int } else { 0 }) + (if key_at(d, 288) != zero_key() { 1int } else { 0 })] == s2[(if key_at(d, 0) != zero_key() { 1int } else { 0 }) + (if key_at(d, 288) != zero_key() { 1int } else { 0 })]);
        assert(s2[(if key_at(d, 0) != zero_key() { 1int } else { 0 }) + (if key_at(d, 288) != zero_key() { 1int } else { 0 })] == p2[0]);
    }
    if key_at(d, 64) != zero_key() {
        assert(s4[(if key_at(d, 0) != zero_key() { 1int } else { 0 }) + (if key_at(d, 288) != zero_key() { 1int } else { 0 }) + (if key_at(d, 32) != zero_key() { 1int } else { 0 })] == s3[(if key_at(d, 0) != zero_key() { 1int } else { 0 }) + (if key_at(d, 288) != zero_key() { 1int } else { 0 }) + (if key_at(d, 32) != zero_key() { 1int } else { 0 })]);
        assert(s3[(if key_at(d, 0) != zero_key() { 1int } else { 0 }) + (if key_at(d, 288) != zero_key() { 1int } else { 0 }) + (if key_at(d, 32) != zero_key() { 1int } else { 0 })] == p3[0]);
    }
    if key_at(d, 96) != zero_key() {
        assert(s4[(if key_at(d, 0) != zero_key() { 1int } else { 0 }) + (if key_at(d, 288) != zero_key() { 1int } else { 0 }) + (if key_at(d, 32) != zero_key() { 1int } else { 0 }) + (if key_at(d, 64) != zero_key() { 1int } else { 0 })] == p4[0]);
    }
}

/// Edge generator for accounts of the Raydium CPMM program.
pub struct RaydiumCPMM {
    len_ammconfig: usize,
    len_poolstate: usize,
    pub program_id: Pubkey,
}

impl RaydiumCPMM {
    /// The filter holds the sizes of the two account layouts.
    pub closed spec fn wf(&self) -> bool {
        &&& self.len_ammconfig == AMM_CONFIG_SIZE
        &&& self.len_poolstate == POOL_STATE_SIZE
    }

    /// The address of the program that the filter serves.
    pub closed spec fn program(&self) -> Seq<u8> {
        self.program_id@
    }

    pub fn new(program_id: &Pubkey) -> (s: Self)
        ensures
            s.wf(),
            s.program() == program_id@,
    {
        Self {
            len_ammconfig: AMM_CONFIG_SIZE,
            len_poolstate: POOL_STATE_SIZE,
            program_id: *program_id,
        }
    }

    /// The programs whose accounts this filter reads.
    pub fn program_id_list(&self) -> (v: Vec<Pubkey>)
        ensures
            v@.len() == 1,
            v@[0]@ == self.program(),
    {
        vec![self.program_id]
    }

    /// Lists the edges that the account implies.
    pub fn edge(&self, header: &AccountHeader, anchor_data: &[u8]) -> (list: VecDeque<FilterEdge>)
        requires
            self.wf(),
        ensures
            edges_view(list@) == raydium_cpmm_edges(self.program(), *header, anchor_data@),
    {
        let mut list: VecDeque<FilterEdge> = VecDeque::new();
        let id = header.pubkey;
        assert(edges_view(list@) =~= Seq::<EdgeView>::empty());
        if anchor_data.len() < 8 {
            return list;
        }
        let data = slice_subrange(anchor_data, 8, anchor_data.len());
        if self.len_ammconfig == data.len() {
            push_link(&mut list, header.slot, WEIGHT_PROGRAM, self.program_id, id);
            push_in_unless_system(&mut list, header, WEIGHT_DIRECT, data, OFF_CONFIG_FUND_OWNER);
            push_in_unless_system(&mut list, header, WEIGHT_DIRECT, data, OFF_CONFIG_PROTOCOL_OWNER);
        } else if self.len_poolstate == data.len() {
            push_in_unless_system(&mut list, header, WEIGHT_DIRECT, data, OFF_POOL_AMM_CONFIG);
            push_in_unless_system(&mut list, header, WEIGHT_DIRECT, data, OFF_POOL_OBSERVATION_KEY);
            push_out_unless_system(&mut list, header, WEIGHT_DIRECT, data, OFF_POOL_CREATOR);
            push_out_unless_system(&mut list, header, WEIGHT_DIRECT, data, OFF_POOL_TOKEN_0_VAULT);
            push_out_unless_system(&mut list, header, WEIGHT_DIRECT, data, OFF_POOL_TOKEN_1_VAULT);
        }
        list
    }
}

} // verus!
