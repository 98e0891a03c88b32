//! Filter for the PumpSwap AMM program.
use std::collections::VecDeque;
use vstd::prelude::*;

use crate::primitive::common::{has_discriminator, match_discriminator};
use crate::primitive::header::AccountHeader;
use crate::primitive::provenance::{edges_avoid_system, edges_sound, group_avoids, group_sound};
use crate::primitive::pubkey::{key_at, zero_key, Pubkey};
use crate::primitive::solana::{derived_address, find_program_address};
use crate::primitive::tree::{
    edges_view, in_from, link, out_unless_system, push_link, push_out_unless_system, EdgeView,
    FilterEdge, WEIGHT_DIRECT,
};

verus! {

/// The PumpSwap program on mainnet, "pAMMBay6oceH9fJKBRHGP5D4bD4sWpmSwMn52FMfXEA".
pub const PUMPSWAP_PROGRAM_ID: [u8; 32] = [
    12, 20, 222, 252, 130, 94, 198, 118, 148, 37, 8, 24, 187, 101, 64, 101, 244, 41, 141, 49,
    86, 213, 113, 180, 212, 248, 9, 12, 24, 233, 168, 99,
];

/// Discriminator of the `Pool` account.
pub open spec fn pool_disc() -> Seq<u8> {
    seq![241u8, 154, 109, 4, 17, 177, 109, 188]
}

/// Discriminator of the `GlobalConfig` account.
pub open spec fn global_config_disc() -> Seq<u8> {
    seq![149u8, 8, 156, 202, 160, 252, 176, 217]
}

/// Discriminator of the `GlobalVolumeAccumulator` account.
pub open spec fn global_volume_accumulator_disc() -> Seq<u8> {
    seq![202u8, 42, 246, 43, 142, 190, 30, 255]
}

/// The seed "global_config" of the global config address.
pub open spec fn global_config_seed() -> Seq<u8> {
    seq![103u8, 108, 111, 98, 97, 108, 95, 99, 111, 110, 102, 105, 103]
}

/// The edges of a PumpSwap account, skipping system-program addresses:
/// - a pool is linked from the global config and links to its LP mint
///   (offset 107) and its base and quote token accounts (139, 171);
/// - the global config is linked from the program and links to the admin (8);
/// - the global volume accumulator is linked from the program and links to the
///   incentive mint (32).
pub open spec fn pumpswap_edges(
    program_id: Seq<u8>,
    global_config: Seq<u8>,
    h: AccountHeader,
    data: Seq<u8>,
) -> Seq<EdgeView> {
    if has_discriminator(pool_disc(), data) {
        in_from(h, WEIGHT_DIRECT, global_config) + out_unless_system(h, WEIGHT_DIRECT, data, 107)
            + out_unless_system(h, WEIGHT_DIRECT, data, 139) + out_unless_system(
            h,
            WEIGHT_DIRECT,
            data,
            171,
        )
    } else if has_discriminator(global_config_disc(), data) {
        in_from(h, WEIGHT_DIRECT, program_id) + out_unless_system(h, WEIGHT_DIRECT, data, 8)
    } else if has_discriminator(global_volume_accumulator_disc(), data) {
        in_from(h, WEIGHT_DIRECT, program_id) + out_unless_system(h, WEIGHT_DIRECT, data, 32)
    } else {
        seq![]
    }
}

/// The smallest data length of each account kind that the filter reads.
pub open spec fn pumpswap_needed_len(data: Seq<u8>) -> int {
    if has_discriminator(pool_disc(), data) {
        203
    } else if has_discriminator(global_config_disc(), data) {
        40
    } else if has_discriminator(global_volume_accumulator_disc(), data) {
        64
    } else {
        0
    }
}

/// Every edge of a readable PumpSwap account is at the account's slot, touches
/// the account, and links it to the program, the global config, or an address
/// stored in its data.
/// No end of an edge that is read from the data is the system program.
pub proof fn lemma_pumpswap_edges_sound(
    program_id: Seq<u8>,
    global_config: Seq<u8>,
    h: AccountHeader,
    data: Seq<u8>,
)
    requires
        data.len() >= pumpswap_needed_len(data),
    ensures
        edges_sound(
            pumpswap_edges(program_id, global_config, h, data),
            h,
            data,
            set![program_id, global_config],
        ),
        edges_avoid_system(pumpswap_edges(program_id, global_config, h, data), h, set![program_id, global_config]),
{
    broadcast use group_sound, group_avoids;

    assert(set![program_id, global_config].contains(program_id));
    assert(set![program_id, global_config].contains(global_config));
}

/// The data of an account matches at most one of the program's discriminators,
/// so the order in which the filter tests them does not change its edges.
pub proof fn lemma_pumpswap_kinds_exclusive(data: Seq<u8>)
    ensures
        (if has_discriminator(pool_disc(), data) { 1int } else { 0 })
            + (if has_discriminator(global_config_disc(), data) { 1int } else { 0 })
            + (if has_discriminator(global_volume_accumulator_disc(), data) { 1int } else { 0 }) <= 1,
{
    if data.len() >= 8 {
        assert(data.subrange(0, 8)[0] == data[0]);
    }
}

/// A PumpSwap pool is linked from the global config, then links to the
/// addresses at offsets 107, 139 and 171 (its LP mint and two token
/// accounts), each unless it is the system program; there is no other edge.
pub proof fn lemma_pumpswap_pool_links(program_id: Seq<u8>, global_config: Seq<u8>, h: AccountHeader, data: Seq<u8>)
    requires
        has_discriminator(pool_disc(), data),
    ensures
        ({
            let e = pumpswap_edges(program_id, global_config, h, data);
            let d = data;
            &&& e.len() == 1int + (if key_at(d, 107) != zero_key() { 1int } else { 0 }) + (if key_at(d, 139) != zero_key() { 1int } else { 0 }) + (if key_at(d, 171) != zero_key() { 1int } else { 0 })
            &&& e[0int] == link(h.slot, WEIGHT_DIRECT, global_config, h.pubkey@)
            &&& key_at(d, 107) != zero_key() ==> e[1int] == link(h.slot, WEIGHT_DIRECT, h.pubkey@, key_at(d, 107))
            &&& key_at(d, 139) != zero_key() ==> e[1int + (if key_at(d, 107) != zero_key() { 1int } else { 0 })] == link(h.slot, WEIGHT_DIRECT, h.pubkey@, key_at(d, 139))
            &&& key_at(d, 171) != zero_key() ==> e[1int + (if key_at(d, 107) != zero_key() { 1int } else { 0 }) + (if key_at(d, 139) != zero_key() { 1int } else { 0 })] == link(h.slot, WEIGHT_DIRECT, h.pubkey@, key_at(d, 171))
        }),
{
    let d = data;
    let p0 = in_from(h, WEIGHT_DIRECT, global_config);
    let p1 = out_unless_system(h, WEIGHT_DIRECT, d, 107);
    let p2 = out_unless_system(h, WEIGHT_DIRECT, d, 139);
    let p3 = out_unless_system(h, WEIGHT_DIRECT, d, 171);
    let s0 = p0;
    let s1 = s0 + p1;
    let s2 = s1 + p2;
    let s3 = s2 + p3;
    assert(pumpswap_edges(program_id, global_config, h, data) == s3);
    assert(s3[0int] == s2[0int]);
    assert(s2[0int] == s1[0int]);
    assert(s1[0int] == s0[0int]);
    assert(s0[0int] == p0[0]);
    if key_at(d, 107) != zero_key() {
        assert(s3[1int] == s2[1int]);
        assert(s2[1int] == s1[1int]);
        assert(s1[1int] == p1[0]);
    }
    if key_at(d, 139) != zero_key() {
        assert(s3[1int + (if key_at(d, 107) != zero_key() { 1int } else { 0 })] == s2[1int + (if key_at(d, 107) != zero_key() { 1int } else { 0 })]);
        assert(s2[1int + (if key_at(d, 107) != zero_key() { 1int } else { 0 })] == p2[0]);
    }
    if key_at(d, 171) != zero_key() {
        assert(s3[1int + (if key_at(d, 107) != zero_key() { 1int } else { 0 }) + (if key_at(d, 139) != zero_key() { 1int } else { 0 })] == p3[0]);
    }
}

/// The PumpSwap global config is linked from the program, then links to its
/// admin (offset 8) unless that is the system program; there is no other edge.
pub proof fn lemma_pumpswap_global_config_links(program_id: Seq<u8>, global_config: Seq<u8>, h: AccountHeader, data: Seq<u8>)
    requires
        has_discriminator(global_config_disc(), data),
    ensures
        ({
            let e = pumpswap_edges(program_id, global_config, h, data);
            let d = data;
            &&& e.len() == 1int + (if key_at(d, 8) != zero_key() { 1int } else { 0 })
            &&& e[0int] == link(h.slot, WEIGHT_DIRECT, program_id, h.pubkey@)
            &&& key_at(d, 8) != zero_key() ==> e[1int] == link(h.slot, WEIGHT_DIRECT, h.pubkey@, key_at(d, 8))
        }),
{
    lemma_pumpswap_kinds_exclusive(data);
    let d = data;
    let p0 = in_from(h, WEIGHT_DIRECT, program_id);
    let p1 = out_unless_system(h, WEIGHT_DIRECT, d, 8);
    let s0 = p0;
    let s1 = s0 + p1;
    assert(pumpswap_edges(program_id, global_config, h, data) == s1);
    assert(s1[0int] == s0[0int]);
    assert(s0[0int] == p0[0]);
    if key_at(d, 8) != zero_key() {
        assert(s1[1int] == p1[0]);
    }
}

/// The PumpSwap global volume accumulator is linked from the program, then
/// links to the address at offset 32 unless that is the system program; there
/// is no other edge.
pub proof fn lemma_pumpswap_volume_accumulator_links(program_id: Seq<u8>, global_config: Seq<u8>, h: AccountHeader, data: Seq<u8>)
    requires
        has_discriminator(global_volume_accumulator_disc(), data),
    ensures
        ({
            let e = pumpswap_edges(program_id, global_config, h, data);
            let d = data;
            &&& e.len() == 1int + (if key_at(d, 32) != zero_key() { 1int } else { 0 })
            &&& e[0int] == link(h.slot, WEIGHT_DIRECT, program_id, h.pubkey@)
            &&& key_at(d, 32) != zero_key() ==> e[1int] == link(h.slot, WEIGHT_DIRECT, h.pubkey@, key_at(d, 32))
        }),
{
    lemma_pumpswap_kinds_exclusive(data);
    let d = data;
    let p0 = in_from(h, WEIGHT_DIRECT, program_id);
    let p1 = out_unless_system(h, WEIGHT_DIRECT, d, 32);
    let s0 = p0;
    let s1 = s0 + p1;
    assert(pumpswap_edges(program_id, global_config, h, data) == s1);
    assert(s1[0int] == s0[0int]);
    assert(s0[0int] == p0[0]);
    if key_at(d, 32) != zero_key() {
        assert(s1[1int] == p1[0]);
    }
}

/// Edge generator for accounts of the PumpSwap AMM program.
pub struct Pumpswap {
    d_pool: [u8; 8],
    d_global_config: [u8; 8],
    d_global_volume_accumulator: [u8; 8],
    pub program_id: Pubkey,
    global_config: Pubkey,
}

impl Pumpswap {
    /// The filter holds the discriminators of the program.
    pub closed spec fn wf(&self) -> bool {
        &&& self.d_pool@ == pool_disc()
        &&& self.d_global_config@ == global_config_disc()
        &&& self.d_global_volume_accumulator@ == global_volume_accumulator_disc()
    }

    /// The address of the program that the filter serves.
    pub closed spec fn program(&self) -> Seq<u8> {
        self.program_id@
    }

    /// The address of the global config.
    pub closed spec fn global_config(&self) -> Seq<u8> {
        self.global_config@
    }

    /// Builds the filter, deriving the global config address PDA(["global_config"]).
    pub fn new(program_id: &Pubkey) -> (s: Self)
        requires
            derived_address(global_config_seed(), program_id@) is Some,
        ensures
            s.wf(),
            s.program() == program_id@,
            Some(s.global_config()) == derived_address(global_config_seed(), program_id@),
    {
        let seed: [u8; 13] = [103, 108, 111, 98, 97, 108, 95, 99, 111, 110, 102, 105, 103];
        assert(seed@ =~= global_config_seed());
        let global_config = find_program_address(&seed, program_id).unwrap();
        Self {
            program_id: *program_id,
            global_config,
            d_pool: pool_discriminator(),
            d_global_config: global_config_discriminator(),
            d_global_volume_accumulator: global_volume_accumulator_discriminator(),
        }
    }

    /// Builds the filter where the global config address exists, else `None`.
    pub fn try_new(program_id: &Pubkey) -> (r: Option<Self>)
        ensures
            r is Some <==> derived_address(global_config_seed(), program_id@) is Some,
            r matches Some(s) ==> {
                &&& s.wf()
                &&& s.program() == program_id@
                &&& Some(s.global_config()) == derived_address(global_config_seed(), program_id@)
            },
    {
        let seed: [u8; 13] = [103, 108, 111, 98, 97, 108, 95, 99, 111, 110, 102, 105, 103];
        assert(seed@ =~= global_config_seed());
        if find_program_address(&seed, program_id).is_some() {
            Some(Self::new(program_id))
        } else {
            None
        }
    }

    /// The programs whose accounts this filter reads.
    pub fn program_id_list(&self) -> (v: Vec<Pubkey>)
        ensures
            v@.len() == 1,
            v@[0]@ == self.program(),
    {
        vec![self.program_id]
    }

    /// The smallest data length that `edge` needs for this account data.
    fn needed_len(&self, data: &[u8]) -> (n: usize)
        requires
            self.wf(),
        ensures
            n == pumpswap_needed_len(data@),
    {
        if match_discriminator(&self.d_pool, data) {
            203
        } else if match_discriminator(&self.d_global_config, data) {
            40
        } else if match_discriminator(&self.d_global_volume_accumulator, data) {
            64
        } else {
            0
        }
    }

    /// Whether `edge` can read this account data in full.
    pub fn readable(&self, data: &[u8]) -> (b: bool)
        requires
            self.wf(),
        ensures
            b == (data@.len() >= pumpswap_needed_len(data@)),
    {
        data.len() >= self.needed_len(data)
    }

    /// Lists the edges that the account implies.
    pub fn edge(&self, header: &AccountHeader, data: &[u8]) -> (list: VecDeque<FilterEdge>)
        requires
            self.wf(),
            data@.len() >= pumpswap_needed_len(data@),
        ensures
            edges_view(list@) == pumpswap_edges(self.program(), self.global_config(), *header, data@),
    {
        let mut list: VecDeque<FilterEdge> = VecDeque::new();
        let id = header.pubkey;
        assert(edges_view(list@) =~= Seq::<EdgeView>::empty());
        if match_discriminator(&self.d_pool, data) {
            // global config -> pool (the config is the parent of all pools)
            push_link(&mut list, header.slot, WEIGHT_DIRECT, self.global_config, id);
            // pool -> LP mint
            push_out_unless_system(&mut list, header, WEIGHT_DIRECT, data, 107);
            // pool -> base token account
            push_out_unless_system(&mut list, header, WEIGHT_DIRECT, data, 139);
            // pool -> quote token account
            push_out_unless_system(&mut list, header, WEIGHT_DIRECT, data, 171);
        } else if match_discriminator(&self.d_global_config, data) {
            // program -> global config
            push_link(&mut list, header.slot, WEIGHT_DIRECT, self.program_id, id);
            // global config -> admin
            push_out_unless_system(&mut list, header, WEIGHT_DIRECT, data, 8);
        } else if match_discriminator(&self.d_global_volume_accumulator, data) {
            // program -> global volume accumulator
            push_link(&mut list, header.slot, WEIGHT_DIRECT, self.program_id, id);
            // global volume accumulator -> incentive mint
            push_out_unless_system(&mut list, header, WEIGHT_DIRECT, data, 32);
        }
        list
    }
}

/// Discriminator of the `Pool` account.
pub fn pool_discriminator() -> (d: [u8; 8])
    ensures
        d@ == pool_disc(),
{
    let d = [241, 154, 109, 4, 17, 177, 109, 188];
    assert(d@ =~= pool_disc());
    d
}

/// Discriminator of the `GlobalConfig` account.
pub fn global_config_discriminator() -> (d: [u8; 8])
    ensures
        d@ == global_config_disc(),
{
    let d = [149, 8, 156, 202, 160, 252, 176, 217];
    assert(d@ =~= global_config_disc());
    d
}

/// Discriminator of the `GlobalVolumeAccumulator` account.
pub fn global_volume_accumulator_discriminator() -> (d: [u8; 8])
    ensures
        d@ == global_volume_accumulator_disc(),
{
    let d = [202, 42, 246, 43, 142, 190, 30, 255];
    assert(d@ =~= global_volume_accumulator_disc());
    d
}

} // verus!
