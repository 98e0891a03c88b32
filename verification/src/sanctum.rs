//! Filter for the Sanctum S Controller (INF) program.
//!
//! `PoolState` (176 bytes in version 1, 240 in version 2) stores, at offsets
//! 16, 48, 80, 112 and 144, the admin, rebalance authority, protocol fee
//! beneficiary, pricing program and LP token mint; version 2 adds the RPS
//! authority at offset 176. The LST state list is a sequence of 80-byte
//! entries, each with a mint at offset 16 and a SOL value calculator at 48.
//! The pool state lives at PDA(["state"]) and the list at PDA(["lst-state-list"]).
use std::collections::VecDeque;
use vstd::prelude::*;

use crate::primitive::header::AccountHeader;
use crate::primitive::provenance::{edges_avoid_system, edges_sound, group_avoids, group_sound};
use crate::primitive::pubkey::{key_at, zero_key, Pubkey};
use crate::primitive::solana::{derived_address, find_program_address};
use crate::primitive::tree::{
    edges_view, in_from, link, out_unless_system, push_link, push_out_unless_system, EdgeView,
    FilterEdge, WEIGHT_DIRECT,
};

verus! {

/// The Sanctum S Controller (INF) program on mainnet,
/// "5ocnV1qiCgaQR8Jb8xWnVbApfaygJ8tNoZfgPwsgx9kx".
pub const S_CONTROLLER_PROGRAM_ID: [u8; 32] = [
    71, 95, 237, 29, 192, 255, 243, 155, 191, 35, 123, 25, 170, 151, 71, 251, 86, 212, 176, 221,
    242, 51, 162, 19, 67, 201, 66, 214, 78, 24, 131, 221,
];

/// Size of a version 1 pool state.
pub const POOL_STATE_V1_SIZE: usize = 176;

/// Size of a version 2 pool state.
pub const POOL_STATE_V2_SIZE: usize = 240;

/// Size of one LST state entry.
pub const LST_STATE_SIZE: usize = 80;

pub const OFF_ADMIN: usize = 16;

pub const OFF_REBALANCE_AUTHORITY: usize = 48;

pub const OFF_PROTOCOL_FEE_BENEFICIARY: usize = 80;

pub const OFF_PRICING_PROGRAM: usize = 112;

pub const OFF_LP_TOKEN_MINT: usize = 144;

/// Version 2 only.
pub const OFF_RPS_AUTHORITY: usize = 176;

/// Offset of the mint within an LST state entry.
pub const OFF_LS_MINT: usize = 16;

/// Offset of the SOL value calculator within an LST state entry.
pub const OFF_LS_SOL_VALUE_CALCULATOR: usize = 48;

/// The seed "state" of the pool state address.
pub open spec fn state_seed() -> Seq<u8> {
    seq![115u8, 116, 97, 116, 101]
}

/// The seed "lst-state-list" of the LST state list address.
pub open spec fn lst_state_list_seed() -> Seq<u8> {
    seq![108u8, 115, 116, 45, 115, 116, 97, 116, 101, 45, 108, 105, 115, 116]
}

/// For the first `n` LST entries, the edges to their mint and calculator,
/// skipping system-program addresses.
pub open spec fn lst_links(h: AccountHeader, data: Seq<u8>, n: nat) -> Seq<EdgeView>
    decreases n,
{
    if n == 0 {
        seq![]
    } else {
        let base = LST_STATE_SIZE * (n - 1);
        lst_links(h, data, (n - 1) as nat) + out_unless_system(
            h,
            WEIGHT_DIRECT,
            data,
            base + OFF_LS_MINT,
        ) + out_unless_system(h, WEIGHT_DIRECT, data, base + OFF_LS_SOL_VALUE_CALCULATOR)
    }
}

/// The edges of a Sanctum account, skipping system-program addresses:
/// - the pool state (at its address, with a version 1 or 2 size) is linked from
///   the program and links to the admin, LP token mint, pricing program, protocol
///   fee beneficiary, rebalance authority and, in version 2, the RPS authority;
/// - the LST state list (at its address, a non-empty whole number of entries) is
///   linked from the pool state and links to each entry's mint and calculator.
pub open spec fn sanctum_edges(
    program_id: Seq<u8>,
    pool_state: Seq<u8>,
    lst_state_list: Seq<u8>,
    h: AccountHeader,
    data: Seq<u8>,
) -> Seq<EdgeView> {
    if h.pubkey@ == pool_state && (data.len() == POOL_STATE_V1_SIZE || data.len()
        == POOL_STATE_V2_SIZE) {
        in_from(h, WEIGHT_DIRECT, program_id) + out_unless_system(h, WEIGHT_DIRECT, data, OFF_ADMIN as int)
            + out_unless_system(h, WEIGHT_DIRECT, data, OFF_LP_TOKEN_MINT as int) + out_unless_system(
            h,
            WEIGHT_DIRECT,
            data,
            OFF_PRICING_PROGRAM as int,
        ) + out_unless_system(h, WEIGHT_DIRECT, data, OFF_PROTOCOL_FEE_BENEFICIARY as int)
            + out_unless_system(h, WEIGHT_DIRECT, data, OFF_REBALANCE_AUTHORITY as int) + if data.len()
            == POOL_STATE_V2_SIZE {
            out_unless_system(h, WEIGHT_DIRECT, data, OFF_RPS_AUTHORITY as int)
        } else {
            seq![]
        }
    } else if h.pubkey@ == lst_state_list && data.len() != 0 && data.len() % LST_STATE_SIZE as nat == 0 {
        in_from(h, WEIGHT_DIRECT, pool_state) + lst_links(h, data, data.len() / LST_STATE_SIZE as nat)
    } else {
        seq![]
    }
}

proof fn lemma_lst_links_sound(h: AccountHeader, data: Seq<u8>, n: nat, cfg: Set<Seq<u8>>)
    requires
        LST_STATE_SIZE * n <= data.len(),
    ensures
        edges_sound(lst_links(h, data, n), h, data, cfg),
    decreases n,
{
    broadcast use group_sound;

    if n > 0 {
        lemma_lst_links_sound(h, data, (n - 1) as nat, cfg);
        assert(LST_STATE_SIZE * (n - 1) + LST_STATE_SIZE <= LST_STATE_SIZE * n) by (nonlinear_arith)
            requires
                n > 0,
        ;
        assert(LST_STATE_SIZE * (n - 1) >= 0) by (nonlinear_arith)
            requires
                n > 0,
        ;
    }
}

proof fn lemma_lst_links_avoid(h: AccountHeader, data: Seq<u8>, n: nat, cfg: Set<Seq<u8>>)
    ensures
        edges_avoid_system(lst_links(h, data, n), h, cfg),
    decreases n,
{
    broadcast use group_avoids;

    if n > 0 {
        lemma_lst_links_avoid(h, data, (n - 1) as nat, cfg);
    }
}

/// Every edge of a Sanctum account is at the account's slot, touches the
/// account, and links it to the program, the pool state, the LST state list, or
/// an address stored in its data.
/// No end of an edge that is read from the data is the system program.
pub proof fn lemma_sanctum_edges_sound(
    program_id: Seq<u8>,
    pool_state: Seq<u8>,
    lst_state_list: Seq<u8>,
    h: AccountHeader,
    data: Seq<u8>,
)
    ensures
        edges_sound(
            sanctum_edges(program_id, pool_state, lst_state_list, h, data),
            h,
            data,
            set![program_id, pool_state, lst_state_list],
        ),
        edges_avoid_system(sanctum_edges(program_id, pool_state, lst_state_list, h, data), h, set![program_id, pool_state, lst_state_list]),
{
    broadcast use group_sound, group_avoids;

    let cfg = set![program_id, pool_state, lst_state_list];
    assert(cfg.contains(program_id));
    assert(cfg.contains(pool_state));
    let n = data.len() / LST_STATE_SIZE as nat;
    assert(LST_STATE_SIZE * n <= data.len()) by (nonlinear_arith)
        requires
            n == data.len() / 80,
    ;
    lemma_lst_links_sound(h, data, n, cfg);
    lemma_lst_links_avoid(h, data, n, cfg);
}

/// The pool state in its first version (176 bytes) is linked from the program,
/// then links, in order, to its admin (offset 16), LP token mint (144),
/// pricing program (112), protocol fee beneficiary (80) and rebalance
/// authority (48), each unless it is the system program; there is no other
/// edge.
pub proof fn lemma_sanctum_pool_state_v1_links(program_id: Seq<u8>, pool_state: Seq<u8>, lst_state_list: Seq<u8>, h: AccountHeader, data: Seq<u8>)
    requires
        h.pubkey@ == pool_state,
        data.len() == 176,
    ensures
        ({
            let e = sanctum_edges(program_id, pool_state, lst_state_list, h, data);
            let d = data;
            &&& e.len() == 1int + (if key_at(d, 16) != zero_key() { 1int } else { 0 }) + (if key_at(d, 144) != zero_key() { 1int } else { 0 }) + (if key_at(d, 112) != zero_key() { 1int } else { 0 }) + (if key_at(d, 80) != zero_key() { 1int } else { 0 }) + (if key_at(d, 48) != zero_key() { 1int } else { 0 })
            &&& e[0int] == link(h.slot, WEIGHT_DIRECT, program_id, h.pubkey@)
            &&& key_at(d, 16) != zero_key() ==> e[1int] == link(h.slot, WEIGHT_DIRECT, h.pubkey@, key_at(d, 16))
            &&& key_at(d, 144) != zero_key() ==> e[1int + (if key_at(d, 16) != zero_key() { 1int } else { 0 })] == link(h.slot, WEIGHT_DIRECT, h.pubkey@, key_at(d, 144))
            &&& key_at(d, 112) != zero_key() ==> e[1int + (if key_at(d, 16) != zero_key() { 1int } else { 0 }) + (if key_at(d, 144) != zero_key() { 1int } else { 0 })] == link(h.slot, WEIGHT_DIRECT, h.pubkey@, key_at(d, 112))
            &&& key_at(d, 80) != zero_key() ==> e[1int + (if key_at(d, 16) != zero_key() { 1int } else { 0 }) + (if key_at(d, 144) != zero_key() { 1int } else { 0 }) + (if key_at(d, 112) != zero_key() { 1int } else { 0 })] == link(h.slot, WEIGHT_DIRECT, h.pubkey@, key_at(d, 80))
            &&& key_at(d, 48) != zero_key() ==> e[1int + (if key_at(d, 16) != zero_key() { 1int } else { 0 }) + (if key_at(d, 144) != zero_key() { 1int } else { 0 }) + (if key_at(d, 112) != zero_key() { 1int } else { 0 }) + (if key_at(d, 80) != zero_key() { 1int } else { 0 })] == link(h.slot, WEIGHT_DIRECT, h.pubkey@, key_at(d, 48))
        }),
{
    let d = data;
    let p0 = in_from(h, WEIGHT_DIRECT, program_id);
    let p1 = out_unless_system(h, WEIGHT_DIRECT, d, 16);
    let p2 = out_unless_system(h, WEIGHT_DIRECT, d, 144);
    let p3 = out_unless_system(h, WEIGHT_DIRECT, d, 112);
    let p4 = out_unless_system(h, WEIGHT_DIRECT, d, 80);
    let p5 = out_unless_system(h, WEIGHT_DIRECT, d, 48);
    let s0 = p0;
    let s1 = s0 + p1;
    let s2 = s1 + p2;
    let s3 = s2 + p3;
    let s4 = s3 + p4;
    let s5 = s4 + p5;
    assert(sanctum_edges(program_id, pool_state, lst_state_list, h, data) == s5);
    assert(s5[0int] == s4[0int]);
    assert(s4[0int] == s3[0int]);
    assert(s3[0int] == s2[0int]);
    assert(s2[0int] == s1[0int]);
    assert(s1[0int] == s0[0int]);
    assert(s0[0int] == p0[0]);
    if key_at(d, 16) != zero_key() {
        assert(s5[1int] == s4[1int]);
        assert(s4[1int] == s3[1int]);
        assert(s3[1int] == s2[1int]);
        assert(s2[1int] == s1[1int]);
        assert(s1[1int] == p1[0]);
    }
    if key_at(d, 144) != zero_key() {
        assert(s5[1int + (if key_at(d, 16) != zero_key() { 1int } else { 0 })] == s4[1int + (if key_at(d, 16) != zero_key() { 1int } else { 0 })]);
        assert(s4[1int + (if key_at(d, 16) != zero_key() { 1int } else { 0 })] == s3[1int + (if key_at(d, 16) != zero_key() { 1int } else { 0 })]);
        assert(s3[1int + (if key_at(d, 16) != zero_key() { 1int } else { 0 })] == s2[1int + (if key_at(d, 16) != zero_key() { 1int } else { 0 })]);
        assert(s2[1int + (if key_at(d, 16) != zero_key() { 1int } else { 0 })] == p2[0]);
    }
    if key_at(d, 112) != zero_key() {
        assert(s5[1int + (if key_at(d, 16) != zero_key() { 1int } else { 0 }) + (if key_at(d, 144) != zero_key() { 1int } else { 0 })] == s4[1int + (if key_at(d, 16) != zero_key() { 1int } else { 0 }) + (if key_at(d, 144) != zero_key() { 1int } else { 0 })]);
        assert(s4[1int + (if key_at(d, 16) != zero_key() { 1int } else { 0 }) + (if key_at(d, 144) != zero_key() { 1int } else { 0 })] == s3[1int + (if key_at(d, 16) != zero_key() { 1int } else { 0 }) + (if key_at(d, 144) != zero_key() { 1int } else { 0 })]);
        assert(s3[1int + (if key_at(d, 16) != zero_key() { 1int } else { 0 }) + (if key_at(d, 144) != zero_key() { 1int } else { 0 })] == p3[0]);
    }
    if key_at(d, 80) != zero_key() {
        assert(s5[1int + (if key_at(d, 16) != zero_key() { 1int } else { 0 }) + (if key_at(d, 144) != zero_key() { 1int } else { 0 }) + (if key_at(d, 112) != zero_key() { 1int } else { 0 })] == s4[1int + (if key_at(d, 16) != zero_key() { 1int } else { 0 }) + (if key_at(d, 144) != zero_key() { 1int } else { 0 }) + (if key_at(d, 112) != zero_key() { 1int } else { 0 })]);
        assert(s4[1int + (if key_at(d, 16) != zero_key() { 1int } else { 0 }) + (if key_at(d, 144) != zero_key() { 1int } else { 0 }) + (if key_at(d, 112) != zero_key() { 1int } else { 0 })] == p4[0]);
    }
    if key_at(d, 48) != zero_key() {
        assert(s5[1int + (if key_at(d, 16) != zero_key() { 1int } else { 0 }) + (if key_at(d, 144) != zero_key() { 1int } else { 0 }) + (if key_at(d, 112) != zero_key() { 1int } else { 0 }) + (if key_at(d, 80) != zero_key() { 1int } else { 0 })] == p5[0]);
    }
}

/// The pool state in its second version (240 bytes) is linked as in the first
/// version, and then also links to its RPS authority (offset 176) unless that
/// is the system program; there is no other edge.
pub proof fn lemma_sanctum_pool_state_v2_links(program_id: Seq<u8>, pool_state: Seq<u8>, lst_state_list: Seq<u8>, h: AccountHeader, data: Seq<u8>)
    requires
        h.pubkey@ == pool_state,
        data.len() == 240,
    ensures
        ({
            let e = sanctum_edges(program_id, pool_state, lst_state_list, h, data);
            let d = data;
            &&& e.len() == 1int + (if key_at(d, 16) != zero_key() { 1int } else { 0 }) + (if key_at(d, 144) != zero_key() { 1int } else { 0 }) + (if key_at(d, 112) != zero_key() { 1int } else { 0 }) + (if key_at(d, 80) != zero_key() { 1int } else { 0 }) + (if key_at(d, 48) != zero_key() { 1int } else { 0 }) + (if key_at(d, 176) != zero_key() { 1int } else { 0 })
            &&& e[0int] == link(h.slot, WEIGHT_DIRECT, program_id, h.pubkey@)
            &&& key_at(d, 16) != zero_key() ==> e[1int] == link(h.slot, WEIGHT_DIRECT, h.pubkey@, key_at(d, 16))
            &&& key_at(d, 144) != zero_key() ==> e[1int + (if key_at(d, 16) != zero_key() { 1int } else { 0 })] == link(h.slot, WEIGHT_DIRECT, h.pubkey@, key_at(d, 144))
            &&& key_at(d, 112) != zero_key() ==> e[1int + (if key_at(d, 16) != zero_key() { 1int } else { 0 }) + (if key_at(d, 144) != zero_key() { 1int } else { 0 })] == link(h.slot, WEIGHT_DIRECT, h.pubkey@, key_at(d, 112))
            &&& key_at(d, 80) != zero_key() ==> e[1int + (if key_at(d, 16) != zero_key() { 1int } else { 0 }) + (if key_at(d, 144) != zero_key() { 1int } else { 0 }) + (if key_at(d, 112) != zero_key() { 1int } else { 0 })] == link(h.slot, WEIGHT_DIRECT, h.pubkey@, key_at(d, 80))
            &&& key_at(d, 48) != zero_key() ==> e[1int + (if key_at(d, 16) != zero_key() { 1int } else { 0 }) + (if key_at(d, 144) != zero_key() { 1int } else { 0 }) + (if key_at(d, 112) != zero_key() { 1int } else { 0 }) + (if key_at(d, 80) != zero_key() { 1int } else { 0 })] == link(h.slot, WEIGHT_DIRECT, h.pubkey@, key_at(d, 48))
            &&& key_at(d, 176) != zero_key() ==> e[1int + (if key_at(d, 16) != zero_key() { 1int } else { 0 }) + (if key_at(d, 144) != zero_key() { 1int } else { 0 }) + (if key_at(d, 112) != zero_key() { 1int } else { 0 }) + (if key_at(d, 80) != zero_key() { 1int } else { 0 }) + (if key_at(d, 48) != zero_key() { 1int } else { 0 })] == link(h.slot, WEIGHT_DIRECT, h.pubkey@, key_at(d, 176))
        }),
{
    let d = data;
    let p0 = in_from(h, WEIGHT_DIRECT, program_id);
    let p1 = out_unless_system(h, WEIGHT_DIRECT, d, 16);
    let p2 = out_unless_system(h, WEIGHT_DIRECT, d, 144);
    let p3 = out_unless_system(h, WEIGHT_DIRECT, d, 112);
    let p4 = out_unless_system(h, WEIGHT_DIRECT, d, 80);
    let p5 = out_unless_system(h, WEIGHT_DIRECT, d, 48);
    let p6 = out_unless_system(h, WEIGHT_DIRECT, d, 176);
    let s0 = p0;
    let s1 = s0 + p1;
    let s2 = s1 + p2;
    let s3 = s2 + p3;
    let s4 = s3 + p4;
    let s5 = s4 + p5;
    let s6 = s5 + p6;
    assert(sanctum_edges(program_id, pool_state, lst_state_list, h, data) == s6);
    assert(s6[0int] == s5[0int]);
    assert(s5[0int] == s4[0int]);
    assert(s4[0int] == s3[0int]);
    assert(s3[0int] == s2[0int]);
    assert(s2[0int] == s1[0int]);
    assert(s1[0int] == s0[0int]);
    assert(s0[0int] == p0[0]);
    if key_at(d, 16) != zero_key() {
        assert(s6[1int] == s5[1int]);
        assert(s5[1int] == s4[1int]);
        assert(s4[1int] == s3[1int]);
        assert(s3[1int] == s2[1int]);
        assert(s2[1int] == s1[1int]);
        assert(s1[1int] == p1[0]);
    }
    if key_at(d, 144) != zero_key() {
        assert(s6[1int + (if key_at(d, 16) != zero_key() { 1int } else { 0 })] == s5[1int + (if key_at(d, 16) != zero_key() { 1int } else { 0 })]);
        assert(s5[1int + (if key_at(d, 16) != zero_key() { 1int } else { 0 })] == s4[1int + (if key_at(d, 16) != zero_key() { 1int } else { 0 })]);
        assert(s4[1int + (if key_at(d, 16) != zero_key() { 1int } else { 0 })] == s3[1int + (if key_at(d, 16) != zero_key() { 1int } else { 0 })]);
        assert(s3[1int + (if key_at(d, 16) != zero_key() { 1int } else { 0 })] == s2[1int + (if key_at(d, 16) != zero_key() { 1int } else { 0 })]);
        assert(s2[1int + (if key_at(d, 16) != zero_key() { 1int } else { 0 })] == p2[0]);
    }
    if key_at(d, 112) != zero_key() {
        assert(s6[1int + (if key_at(d, 16) != zero_key() { 1int } else { 0 }) + (if key_at(d, 144) != zero_key() { 1int } else { 0 })] == s5[1int + (if key_at(d, 16) != zero_key() { 1int } else { 0 }) + (if key_at(d, 144) != zero_key() { 1int } else { 0 })]);
        assert(s5[1int + (if key_at(d, 16) != zero_key() { 1int } else { 0 }) + (if key_at(d, 144) != zero_key() { 1int } else { 0 })] == s4[1int + (if key_at(d, 16) != zero_key() { 1int } else { 0 }) + (if key_at(d, 144) != zero_key() { 1int } else { 0 })]);
        assert(s4[1int + (if key_at(d, 16) != zero_key() { 1int } else { 0 }) + (if key_at(d, 144) != zero_key() { 1int } else { 0 })] == s3[1int + (if key_at(d, 16) != zero_key() { 1int } else { 0 }) + (if key_at(d, 144) != zero_key() { 1int } else { 0 })]);
        assert(s3[1int + (if key_at(d, 16) != zero_key() { 1int } else { 0 }) + (if key_at(d, 144) != zero_key() { 1int } else { 0 })] == p3[0]);
    }
    if key_at(d, 80) != zero_key() {
        assert(s6[1int + (if key_at(d, 16) != zero_key() { 1int } else { 0 }) + (if key_at(d, 144) != zero_key() { 1int } else { 0 }) + (if key_at(d, 112) != zero_key() { 1int } else { 0 })] == s5[1int + (if key_at(d, 16) != zero_key() { 1int } else { 0 }) + (if key_at(d, 144) != zero_key() { 1int } else { 0 }) + (if key_at(d, 112) != zero_key() { 1int } else { 0 })]);
        assert(s5[1int + (if key_at(d, 16) != zero_key() { 1int } else { 0 }) + (if key_at(d, 144) != zero_key() { 1int } else { 0 }) + (if key_at(d, 112) != zero_key() { 1int } else { 0 })] == s4[1int + (if key_at(d, 16) != zero_key() { 1int } else { 0 }) + (if key_at(d, 144) != zero_key() { 1int } else { 0 }) + (if key_at(d, 112) != zero_key() { 1int } else { 0 })]);
        assert(s4[1int + (if key_at(d, 16) != zero_key() { 1int } else { 0 }) + (if key_at(d, 144) != zero_key() { 1int } else { 0 }) + (if key_at(d, 112) != zero_key() { 1int } else { 0 })] == p4[0]);
    }
    if key_at(d, 48) != zero_key() {
        assert(s6[1int + (if key_at(d, 16) != zero_key() { 1int } else { 0 }) + (if key_at(d, 144) != zero_key() { 1int } else { 0 }) + (if key_at(d, 112) != zero_key() { 1int } else { 0 }) + (if key_at(d, 80) != zero_key() { 1int } else { 0 })] == s5[1int + (if key_at(d, 16) != zero_key() { 1int } else { 0 }) + (if key_at(d, 144) != zero_key() { 1int } else { 0 }) + (if key_at(d, 112) != zero_key() { 1int } else { 0 }) + (if key_at(d, 80) != zero_key() { 1int } else { 0 })]);
        assert(s5[1int + (if key_at(d, 16) != zero_key() { 1int } else { 0 }) + (if key_at(d, 144) != zero_key() { 1int } else { 0 }) + (if key_at(d, 112) != zero_key() { 1int } else { 0 }) + (if key_at(d, 80) != zero_key() { 1int } else { 0 })] == p5[0]);
    }
    if key_at(d, 176) != zero_key() {
        assert(s6[1int + (if key_at(d, 16) != zero_key() { 1int } else { 0 }) + (if key_at(d, 144) != zero_key() { 1int } else { 0 }) + (if key_at(d, 112) != zero_key() { 1int } else { 0 }) + (if key_at(d, 80) != zero_key() { 1int } else { 0 }) + (if key_at(d, 48) != zero_key() { 1int } else { 0 })] == p6[0]);
    }
}

/// The number of edges that the first `k` entries of an LST state list give:
/// one for each of an entry's mint (offset 16 in the entry) and SOL value
/// calculator (offset 48) that is not the system program.
pub open spec fn lst_edges_before(data: Seq<u8>, k: nat) -> nat
    decreases k,
{
    if k == 0 {
        0
    } else {
        let base = 80 * (k - 1);
        lst_edges_before(data, (k - 1) as nat) + (if key_at(data, base + 16) != zero_key() {
            1nat
        } else {
            0nat
        }) + (if key_at(data, base + 48) != zero_key() {
            1nat
        } else {
            0nat
        })
    }
}

proof fn lemma_lst_edges_before_step(data: Seq<u8>, a: nat, b: nat)
    requires
        a < b,
    ensures
        lst_edges_before(data, a) + (if key_at(data, 80 * a as int + 16) != zero_key() { 1int } else { 0 }) + (
        if key_at(data, 80 * a as int + 48) != zero_key() {
            1int
        } else {
            0
        }) <= lst_edges_before(data, b),
    decreases b,
{
    if a + 1 < b {
        lemma_lst_edges_before_step(data, a, (b - 1) as nat);
    }
}

proof fn lemma_lst_links_every_entry(h: AccountHeader, data: Seq<u8>, n: nat)
    ensures
        lst_links(h, data, n).len() == lst_edges_before(data, n),
        forall|k: int|
            #![trigger lst_edges_before(data, k as nat)]
            0 <= k < n ==> {
                let m = key_at(data, 80 * k + 16);
                let c = key_at(data, 80 * k + 48);
                let at = lst_edges_before(data, k as nat) as int;
                &&& m != zero_key() ==> lst_links(h, data, n)[at] == link(
                    h.slot,
                    WEIGHT_DIRECT,
                    h.pubkey@,
                    m,
                )
                &&& c != zero_key() ==> lst_links(h, data, n)[at + if m != zero_key() {
                    1int
                } else {
                    0
                }] == link(h.slot, WEIGHT_DIRECT, h.pubkey@, c)
            },
    decreases n,
{
    if n > 0 {
        let p = (n - 1) as nat;
        lemma_lst_links_every_entry(h, data, p);
        let a = lst_links(h, data, p);
        let base = LST_STATE_SIZE * p;
        let b1 = out_unless_system(h, WEIGHT_DIRECT, data, base + OFF_LS_MINT);
        let b2 = out_unless_system(h, WEIGHT_DIRECT, data, base + OFF_LS_SOL_VALUE_CALCULATOR);
        assert(lst_links(h, data, n) == a + b1 + b2);
        assert forall|k: int| #![trigger lst_edges_before(data, k as nat)] 0 <= k < n implies {
            let m = key_at(data, 80 * k + 16);
            let c = key_at(data, 80 * k + 48);
            let at = lst_edges_before(data, k as nat) as int;
            &&& m != zero_key() ==> (a + b1 + b2)[at] == link(h.slot, WEIGHT_DIRECT, h.pubkey@, m)
            &&& c != zero_key() ==> (a + b1 + b2)[at + if m != zero_key() {
                1int
            } else {
                0
            }] == link(h.slot, WEIGHT_DIRECT, h.pubkey@, c)
        } by {
            let m = key_at(data, 80 * k + 16);
            let c = key_at(data, 80 * k + 48);
            let at = lst_edges_before(data, k as nat) as int;
            if k < p {
                lemma_lst_edges_before_step(data, k as nat, p);
                if m != zero_key() {
                    assert((a + b1 + b2)[at] == a[at]);
                }
                if c != zero_key() {
                    let j = at + if m != zero_key() { 1int } else { 0 };
                    assert((a + b1 + b2)[j] == a[j]);
                }
            } else {
                if m != zero_key() {
                    assert((a + b1 + b2)[at] == b1[0]);
                }
                if c != zero_key() {
                    let j = at + if m != zero_key() { 1int } else { 0 };
                    assert((a + b1 + b2)[j] == b2[0]);
                }
            }
        }
    }
}

/// The LST state list (a whole number of 80-byte entries, not empty) is linked
/// from the pool state, then links, entry by entry and in order, to each
/// entry's mint (offset 16 in the entry) and SOL value calculator (offset 48)
/// that is not the system program, and to nothing else.
pub proof fn lemma_sanctum_lst_list_links_every_entry(
    program_id: Seq<u8>,
    pool_state: Seq<u8>,
    lst_state_list: Seq<u8>,
    h: AccountHeader,
    data: Seq<u8>,
)
    requires
        h.pubkey@ == lst_state_list,
        h.pubkey@ != pool_state,
        data.len() != 0,
        data.len() % 80 == 0,
    ensures
        ({
            let e = sanctum_edges(program_id, pool_state, lst_state_list, h, data);
            let n = data.len() / 80;
            &&& e.len() == 1 + lst_edges_before(data, n)
            &&& e[0] == link(h.slot, WEIGHT_DIRECT, pool_state, h.pubkey@)
            &&& forall|k: int|
            #![trigger lst_edges_before(data, k as nat)]
                0 <= k < n ==> {
                    let m = key_at(data, 80 * k + 16);
                    let c = key_at(data, 80 * k + 48);
                    let at = 1 + lst_edges_before(data, k as nat) as int;
                    &&& m != zero_key() ==> e[at] == link(h.slot, WEIGHT_DIRECT, h.pubkey@, m)
                    &&& c != zero_key() ==> e[at + if m != zero_key() {
                        1int
                    } else {
                        0
                    }] == link(h.slot, WEIGHT_DIRECT, h.pubkey@, c)
                }
        }),
{
    let n = data.len() / 80;
    lemma_lst_links_every_entry(h, data, n);
    let a = in_from(h, WEIGHT_DIRECT, pool_state);
    let l = lst_links(h, data, n);
    let e = sanctum_edges(program_id, pool_state, lst_state_list, h, data);
    assert(e == a + l);
    assert forall|k: int| #![trigger lst_edges_before(data, k as nat)] 0 <= k < n implies {
        let m = key_at(data, 80 * k + 16);
        let c = key_at(data, 80 * k + 48);
        let at = 1 + lst_edges_before(data, k as nat) as int;
        &&& m != zero_key() ==> e[at] == link(h.slot, WEIGHT_DIRECT, h.pubkey@, m)
        &&& c != zero_key() ==> e[at + if m != zero_key() {
            1int
        } else {
            0
        }] == link(h.slot, WEIGHT_DIRECT, h.pubkey@, c)
    } by {
        let m = key_at(data, 80 * k + 16);
        let c = key_at(data, 80 * k + 48);
        let at = lst_edges_before(data, k as nat) as int;
        lemma_lst_edges_before_step(data, k as nat, n);
        if m != zero_key() {
            assert((a + l)[1 + at] == l[at]);
        }
        if c != zero_key() {
            let j = at + if m != zero_key() { 1int } else { 0 };
            assert((a + l)[1 + j] == l[j]);
        }
    }
}

/// Edge generator for accounts of the Sanctum S Controller program.
pub struct Sanctum {
    pub program_id: Pubkey,
    /// PDA(["state"], program_id)
    pool_state_pda: Pubkey,
    /// PDA(["lst-state-list"], program_id)
    lst_state_list_pda: Pubkey,
}

impl Sanctum {
    /// The address of the program that the filter serves.
    pub closed spec fn program(&self) -> Seq<u8> {
        self.program_id@
    }

    /// The address of the pool state.
    pub closed spec fn pool_state(&self) -> Seq<u8> {
        self.pool_state_pda@
    }

    /// The address of the LST state list.
    pub closed spec fn lst_state_list(&self) -> Seq<u8> {
        self.lst_state_list_pda@
    }

    /// Builds the filter, deriving the two global addresses of the program.
    pub fn new(program_id: &Pubkey) -> (s: Self)
        requires
            derived_address(state_seed(), program_id@) is Some,
            derived_address(lst_state_list_seed(), program_id@) is Some,
        ensures
            s.program() == program_id@,
            Some(s.pool_state()) == derived_address(state_seed(), program_id@),
            Some(s.lst_state_list()) == derived_address(lst_state_list_seed(), program_id@),
    {
        let state: [u8; 5] = [115, 116, 97, 116, 101];
        let list: [u8; 14] = [108, 115, 116, 45, 115, 116, 97, 116, 101, 45, 108, 105, 115, 116];
        assert(state@ =~= state_seed());
        assert(list@ =~= lst_state_list_seed());
        let pool_state_pda = find_program_address(&state, program_id).unwrap();
        let lst_state_list_pda = find_program_address(&list, program_id).unwrap();
        Self { program_id: *program_id, pool_state_pda, lst_state_list_pda }
    }

    /// Builds the filter where both global addresses exist, else `None`.
    pub fn try_new(program_id: &Pubkey) -> (r: Option<Self>)
        ensures
            r is Some <==> (derived_address(state_seed(), program_id@) is Some && derived_address(
                lst_state_list_seed(),
                program_id@,
            ) is Some),
            r matches Some(s) ==> {
                &&& s.program() == program_id@
                &&& Some(s.pool_state()) == derived_address(state_seed(), program_id@)
                &&& Some(s.lst_state_list()) == derived_address(lst_state_list_seed(), program_id@)
            },
    {
        let state: [u8; 5] = [115, 116, 97, 116, 101];
        let list: [u8; 14] = [108, 115, 116, 45, 115, 116, 97, 116, 101, 45, 108, 105, 115, 116];
        assert(state@ =~= state_seed());
        assert(list@ =~= lst_state_list_seed());
        if find_program_address(&state, program_id).is_some() && find_program_address(
            &list,
            program_id,
        ).is_some() {
            Some(Self::new(program_id))
        } else {
            None
        }
    }

    /// The programs whose accounts this filter reads.
    pub fn program_id_list(&self) -> (v: Vec<Pubkey>)
        ensures
            v@.len() == 1,
            v@[0]@ == self.program(),
    {
        vec![self.program_id]
    }

    /// Lists the edges that the account implies.
    pub fn edge(&self, header: &AccountHeader, data: &[u8]) -> (list: VecDeque<FilterEdge>)
        ensures
            edges_view(list@) == sanctum_edges(
                self.program(),
                self.pool_state(),
                self.lst_state_list(),
                *header,
                data@,
            ),
    {
        let mut list: VecDeque<FilterEdge> = VecDeque::new();
        let id = header.pubkey;
        assert(edges_view(list@) =~= Seq::<EdgeView>::empty());
        if id.same(&self.pool_state_pda) && (data.len() == POOL_STATE_V1_SIZE || data.len()
            == POOL_STATE_V2_SIZE) {
            let is_v2 = data.len() == POOL_STATE_V2_SIZE;
            // program -> pool state
            push_link(&mut list, header.slot, WEIGHT_DIRECT, self.program_id, id);
            // pool state -> admin
            push_out_unless_system(&mut list, header, WEIGHT_DIRECT, data, OFF_ADMIN);
            // pool state -> LP token mint (the INF token)
            push_out_unless_system(&mut list, header, WEIGHT_DIRECT, data, OFF_LP_TOKEN_MINT);
            // pool state -> pricing program
            push_out_unless_system(&mut list, header, WEIGHT_DIRECT, data, OFF_PRICING_PROGRAM);
            // pool state -> protocol fee beneficiary
            push_out_unless_system(
                &mut list,
                header,
                WEIGHT_DIRECT,
                data,
                OFF_PROTOCOL_FEE_BENEFICIARY,
            );
            // pool state -> rebalance authority
            push_out_unless_system(&mut list, header, WEIGHT_DIRECT, data, OFF_REBALANCE_AUTHORITY);
            // pool state -> RPS authority (version 2 only)
            if is_v2 {
                push_out_unless_system(&mut list, header, WEIGHT_DIRECT, data, OFF_RPS_AUTHORITY);
            } else {
                assert(edges_view(list@) =~= edges_view(list@) + Seq::<EdgeView>::empty());
            }
        } else if id.same(&self.lst_state_list_pda) && data.len() != 0 && data.len() % LST_STATE_SIZE
            == 0 {
            // pool state -> LST state list
            push_link(&mut list, header.slot, WEIGHT_DIRECT, self.pool_state_pda, id);
            let ghost before = edges_view(list@);
            let n = data.len() / LST_STATE_SIZE;
            let mut i: usize = 0;
            assert(before =~= before + lst_links(*header, data@, 0));
            while i < n
                invariant
                    i <= n,
                    n == data.len() / LST_STATE_SIZE,
                    edges_view(list@) == before + lst_links(*header, data@, i as nat),
                decreases n - i,
            {
                assert(LST_STATE_SIZE * i + LST_STATE_SIZE <= data.len()) by (nonlinear_arith)
                    requires
                        i < n,
                        n == data.len() / 80,
                ;
                let base = i * LST_STATE_SIZE;
                // LST state list -> mint
                if data.len() >= base + OFF_LS_MINT + 32 {
                    push_out_unless_system(&mut list, header, WEIGHT_DIRECT, data, base + OFF_LS_MINT);
                }
                // LST state list -> SOL value calculator
                if data.len() >= base + OFF_LS_SOL_VALUE_CALCULATOR + 32 {
                    push_out_unless_system(
                        &mut list,
                        header,
                        WEIGHT_DIRECT,
                        data,
                        base + OFF_LS_SOL_VALUE_CALCULATOR,
                    );
                }
                i += 1;
                assert(edges_view(list@) =~= before + lst_links(*header, data@, i as nat));
            }
        }
        list
    }
}

} // verus!
