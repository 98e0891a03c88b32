//! Filter for the Raydium concentrated liquidity (CLMM) program, told apart by
//! account size.
//!
//! After the discriminator, a `PoolState` is 1536 bytes (`repr(C, packed)`)
//! with the AMM config at 1, the owner at 33, the token vaults at 129 and 161
//! and the observation account at 193; an `AmmConfig` is 109 bytes with the
//! owner at 3 and the fund owner at 53.
use std::collections::VecDeque;
use vstd::prelude::*;
use vstd::slice::slice_subrange;

use crate::primitive::header::AccountHeader;
use crate::primitive::provenance::{edges_avoid_system, edges_sound, group_avoids, group_sound, lemma_sound_after_prefix};
use crate::primitive::pubkey::{key_at, zero_key, Pubkey};
use crate::primitive::tree::{
    edges_view, in_from, in_unless_system, link, out_unless_system, push_in_unless_system, push_link,
    push_out_unless_system, EdgeView, FilterEdge, WEIGHT_DIRECT, WEIGHT_PROGRAM,
};

verus! {

/// Size of a `PoolState` after the discriminator.
pub const POOL_STATE_SIZE: usize = 1536;

/// Size of an `AmmConfig` after the discriminator.
pub const AMM_CONFIG_SIZE: usize = 109;

pub const OFF_POOL_AMM_CONFIG: usize = 1;

pub const OFF_POOL_OWNER: usize = 33;

pub const OFF_POOL_TOKEN_VAULT_0: usize = 129;

pub const OFF_POOL_TOKEN_VAULT_1: usize = 161;

pub const OFF_POOL_OBSERVATION_KEY: usize = 193;

pub const OFF_CONFIG_OWNER: usize = 3;

pub const OFF_CONFIG_FUND_OWNER: usize = 53;

/// The edges of a CLMM account, read after the discriminator and skipping
/// system-program addresses:
/// - a pool is linked from its config and its owner and links to its two
///   token vaults and its observation account;
/// - a config is linked from the program, its owner and its fund owner.
pub open spec fn raydium_clmm_edges(program_id: Seq<u8>, h: AccountHeader, anchor_data: Seq<u8>) -> Seq<EdgeView> {
    let data = anchor_data.subrange(8, anchor_data.len() as int);
    if anchor_data.len() < 8 {
        seq![]
    } else if data.len() == POOL_STATE_SIZE {
        in_unless_system(h, WEIGHT_DIRECT, data, OFF_POOL_AMM_CONFIG as int) + in_unless_system(
            h,
            WEIGHT_DIRECT,
            data,
            OFF_POOL_OWNER as int,
        ) + out_unless_system(h, WEIGHT_DIRECT, data, OFF_POOL_TOKEN_VAULT_0 as int) + out_unless_system(
            h,
            WEIGHT_DIRECT,
            data,
            OFF_POOL_TOKEN_VAULT_1 as int,
        ) + out_unless_system(h, WEIGHT_DIRECT, data, OFF_POOL_OBSERVATION_KEY as int)
    } else if data.len() == AMM_CONFIG_SIZE {
        in_from(h, WEIGHT_PROGRAM, program_id) + in_unless_system(h, WEIGHT_DIRECT, data, OFF_CONFIG_OWNER as int)
            + in_unless_system(h, WEIGHT_DIRECT, data, OFF_CONFIG_FUND_OWNER as int)
    } else {
        seq![]
    }
}

/// Every edge of an account of the program is at the account's slot, touches
/// the account, and links it to the program or to an address stored in its data.
/// No end of an edge that is read from the data is the system program.
pub proof fn lemma_raydium_clmm_edges_sound(program_id: Seq<u8>, h: AccountHeader, anchor_data: Seq<u8>)
    ensures
        edges_sound(raydium_clmm_edges(program_id, h, anchor_data), h, anchor_data, set![program_id]),
        edges_avoid_system(raydium_clmm_edges(program_id, h, anchor_data), h, set![program_id]),
{
    broadcast use group_sound, group_avoids;

    assert(set![program_id].contains(program_id));
    if anchor_data.len() >= 8 {
        let data = anchor_data.subrange(8, anchor_data.len() as int);
        assert(edges_sound(raydium_clmm_edges(program_id, h, anchor_data), h, data, set![program_id]));
        lemma_sound_after_prefix(raydium_clmm_edges(program_id, h, anchor_data), h, anchor_data, 8, set![program_id]);
    }
}

/// The edges of a pool state point the way the pool's fields do: edges into
/// the pool come only from its config (offset 1 after the discriminator) or
/// its owner (offset 33); edges out of the pool go only to its token vaults
/// (offsets 129 and 161) or its observation account (offset 193); and a
/// stored observation account that is not the system program gets the last
/// edge, from the pool to it.
pub proof fn lemma_raydium_clmm_pool_directions(program_id: Seq<u8>, h: AccountHeader, anchor_data: Seq<u8>)
    requires
        anchor_data.len() == 8 + POOL_STATE_SIZE,
    ensures
        ({
            let e = raydium_clmm_edges(program_id, h, anchor_data);
            let d = anchor_data.subrange(8, anchor_data.len() as int);
            &&& forall|i: int|
                0 <= i < e.len() && (#[trigger] e[i]).from != h.pubkey@ ==> e[i].to == h.pubkey@ && (
                e[i].from == key_at(d, 1) || e[i].from == key_at(d, 33))
            &&& forall|i: int|
                0 <= i < e.len() && (#[trigger] e[i]).to != h.pubkey@ ==> e[i].from == h.pubkey@ && (
                e[i].to == key_at(d, 129) || e[i].to == key_at(d, 161) || e[i].to == key_at(d, 193))
            &&& key_at(d, 193) != zero_key() ==> e.len() > 0 && e[e.len() - 1] == link(
                h.slot,
                WEIGHT_DIRECT,
                h.pubkey@,
                key_at(d, 193),
            )
            &&& e.len() == (if key_at(d, 1) != zero_key() { 1int } else { 0 }) + (if key_at(d, 33)
                != zero_key() { 1int } else { 0 }) + (if key_at(d, 129) != zero_key() { 1int } else { 0 })
                + (if key_at(d, 161) != zero_key() { 1int } else { 0 }) + (if key_at(d, 193) != zero_key() {
                1int
            } else {
                0
            })
            &&& key_at(d, 1) != zero_key() ==> e.contains(link(h.slot, WEIGHT_DIRECT, key_at(d, 1), h.pubkey@))
            &&& key_at(d, 33) != zero_key() ==> e.contains(link(h.slot, WEIGHT_DIRECT, key_at(d, 33), h.pubkey@))
            &&& key_at(d, 129) != zero_key() ==> e.contains(link(h.slot, WEIGHT_DIRECT, h.pubkey@, key_at(d, 129)))
            &&& key_at(d, 161) != zero_key() ==> e.contains(link(h.slot, WEIGHT_DIRECT, h.pubkey@, key_at(d, 161)))
        }),
{
    let d = anchor_data.subrange(8, anchor_data.len() as int);
    let a = in_unless_system(h, WEIGHT_DIRECT, d, 1);
    let b = in_unless_system(h, WEIGHT_DIRECT, d, 33);
    let c = out_unless_system(h, WEIGHT_DIRECT, d, 129);
    let f = out_unless_system(h, WEIGHT_DIRECT, d, 161);
    let g = out_unless_system(h, WEIGHT_DIRECT, d, 193);
    let e = raydium_clmm_edges(program_id, h, anchor_data);
    assert(e == a + b + c + f + g);
    assert forall|i: int| 0 <= i < e.len() implies {
        &&& (#[trigger] e[i]).from != h.pubkey@ ==> e[i].to == h.pubkey@ && (e[i].from == key_at(d, 1)
            || e[i].from == key_at(d, 33))
        &&& e[i].to != h.pubkey@ ==> e[i].from == h.pubkey@ && (e[i].to == key_at(d, 129) || e[i].to
            == key_at(d, 161) || e[i].to == key_at(d, 193))
    } by {
        let ab = a + b;
        let abc = ab + c;
        let abcf = abc + f;
        if i < a.len() {
            assert(e[i] == a[i]);
        } else if i < ab.len() {
            assert(e[i] == ab[i]);
            assert(ab[i] == b[i - a.len()]);
        } else if i < abc.len() {
            assert(e[i] == abc[i]);
            assert(abc[i] == c[i - ab.len()]);
        } else if i < abcf.len() {
            assert(e[i] == abcf[i]);
            assert(abcf[i] == f[i - abc.len()]);
        } else {
            assert(e[i] == g[i - abcf.len()]);
        }
    }
    let ab = a + b;
    let abc = ab + c;
    let abcf = abc + f;
    if key_at(d, 1) != zero_key() {
        assert(e[0] == a[0]);
    }
    if key_at(d, 33) != zero_key() {
        assert(e[a.len() as int] == b[0]);
    }
    if key_at(d, 129) != zero_key() {
        assert(e[ab.len() as int] == c[0]);
    }
    if key_at(d, 161) != zero_key() {
        assert(e[abc.len() as int] == f[0]);
    }
}

/// A CLMM config (109 bytes after the discriminator) is linked from the program,
/// then from its owner (offset 3) and its fund owner (offset 53), each unless
/// it is the system program; there is no other edge.
pub proof fn lemma_raydium_clmm_config_links(program_id: Seq<u8>, h: AccountHeader, anchor_data: Seq<u8>)
    requires
        anchor_data.len() == 8 + 109,
    ensures
        ({
            let e = raydium_clmm_edges(program_id, h, anchor_data);
            let d = anchor_data.subrange(8, anchor_data.len() as int);
            &&& e.len() == 1int + (if key_at(d, 3) != zero_key() { 1int } else { 0 }) + (if key_at(d, 53) != zero_key() { 1int } else { 0 })
            &&& e[0int] == link(h.slot, WEIGHT_PROGRAM, program_id, h.pubkey@)
            &&& key_at(d, 3) != zero_key() ==> e[1int] == link(h.slot, WEIGHT_DIRECT, key_at(d, 3), h.pubkey@)
            &&& key_at(d, 53) != zero_key() ==> e[1int + (if key_at(d, 3) != zero_key() { 1int } else { 0 })] == link(h.slot, WEIGHT_DIRECT, key_at(d, 53), h.pubkey@)
        }),
{
    let d = anchor_data.subrange(8, anchor_data.len() as int);
    let p0 = in_from(h, WEIGHT_PROGRAM, program_id);
    let p1 = in_unless_system(h, WEIGHT_DIRECT, d, 3);
    let p2 = in_unless_system(h, WEIGHT_DIRECT, d, 53);
    let s0 = p0;
    let s1 = s0 + p1;
    let s2 = s1 + p2;
    assert(raydium_clmm_edges(program_id, h, anchor_data) == s2);
    assert(s2[0int] == s1[0int]);
    assert(s1[0int] == s0[0int]);
    assert(s0[0int] == p0[0]);
    if key_at(d, 3) != zero_key() {
        assert(s2[1int] == s1[1int]);
        assert(s1[1int] == p1[0]);
    }
    if key_at(d, 53) != zero_key() {
        assert(s2[1int + (if key_at(d, 3) != zero_key() { 1int } else { 0 })] == p2[0]);
    }
}

/// Edge generator for accounts of the Raydium CLMM program.
pub struct RaydiumCLMM {
    len_poolstate: usize,
    len_ammconfig: usize,
    pub program_id: Pubkey,
}

impl RaydiumCLMM {
    /// The filter holds the sizes of the two account layouts.
    pub closed spec fn wf(&self) -> bool {
        &&& self.len_poolstate == POOL_STATE_SIZE
        &&& self.len_ammconfig == AMM_CONFIG_SIZE
    }

    /// The address of the program that the filter serves.
    pub closed spec fn program(&self) -> Seq<u8> {
        self.program_id@
    }

    pub fn new(program_id: &Pubkey) -> (s: Self)
        ensures
            s.wf(),
            s.program() == program_id@,
    {
        Self {
            program_id: *program_id,
            len_poolstate: POOL_STATE_SIZE,
            len_ammconfig: AMM_CONFIG_SIZE,
        }
    }

    /// The programs whose accounts this filter reads.
    pub fn program_id_list(&self) -> (v: Vec<Pubkey>)
        ensures
            v@.len() == 1,
            v@[0]@ == self.program(),
    {
        vec![self.program_id]
    }

    /// Lists the edges that the account implies.
    pub fn edge(&self, header: &AccountHeader, anchor_data: &[u8]) -> (list: VecDeque<FilterEdge>)
        requires
            self.wf(),
        ensures
            edges_view(list@) == raydium_clmm_edges(self.program(), *header, anchor_data@),
    {
        let mut list: VecDeque<FilterEdge> = VecDeque::new();
        assert(edges_view(list@) =~= Seq::<EdgeView>::empty());
        if anchor_data.len() < 8 {
            return list;
        }
        let data = slice_subrange(anchor_data, 8, anchor_data.len());
        let id = header.pubkey;
        if self.len_poolstate == data.len() {
            push_in_unless_system(&mut list, header, WEIGHT_DIRECT, data, OFF_POOL_AMM_CONFIG);
            push_in_unless_system(&mut list, header, WEIGHT_DIRECT, data, OFF_POOL_OWNER);
            push_out_unless_system(&mut list, header, WEIGHT_DIRECT, data, OFF_POOL_TOKEN_VAULT_0);
            push_out_unless_system(&mut list, header, WEIGHT_DIRECT, data, OFF_POOL_TOKEN_VAULT_1);
            push_out_unless_system(&mut list, header, WEIGHT_DIRECT, data, OFF_POOL_OBSERVATION_KEY);
        } else if self.len_ammconfig == data.len() {
            push_link(&mut list, header.slot, WEIGHT_PROGRAM, self.program_id, id);
            push_in_unless_system(&mut list, header, WEIGHT_DIRECT, data, OFF_CONFIG_OWNER);
            push_in_unless_system(&mut list, header, WEIGHT_DIRECT, data, OFF_CONFIG_FUND_OWNER);
        }
        list
    }
}

} // verus!
