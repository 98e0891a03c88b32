//! Filter for the Orca Whirlpool program.
use std::collections::VecDeque;
use vstd::prelude::*;

use crate::primitive::common::{has_discriminator, match_discriminator};
use crate::primitive::header::AccountHeader;
use crate::primitive::provenance::{edges_avoid_system, edges_sound, group_avoids, group_sound};
use crate::primitive::pubkey::{key_at, zero_key, Pubkey};
use crate::primitive::tree::{
    edges_view, in_from, link, in_unless_system, out_unless_system, push_in_unless_system, push_link,
    push_out_unless_system, EdgeView, FilterEdge, WEIGHT_DIRECT,
};

verus! {

/// Discriminator of the `WhirlpoolsConfig` account.
pub open spec fn whirlpoolconfig_disc() -> Seq<u8> {
    seq![157u8, 20, 49, 224, 217, 87, 193, 254]
}

/// Discriminator of the `Whirlpool` account.
pub open spec fn whirlpool_disc() -> Seq<u8> {
    seq![63u8, 149, 209, 12, 225, 128, 99, 9]
}

/// Discriminator of the `TickArray` account.
pub open spec fn tickarray_disc() -> Seq<u8> {
    seq![69u8, 97, 189, 190, 110, 7, 66, 187]
}

/// The edges of an Orca account:
/// - a config is linked from the program and links to its fee authority,
///   collect-protocol-fees authority and reward emissions super authority;
/// - a whirlpool is linked from its config and links to its two token vaults;
/// - a tick array is linked from the whirlpool stored in its last 32 bytes.
pub open spec fn orca_edges(program_id: Seq<u8>, h: AccountHeader, data: Seq<u8>) -> Seq<EdgeView> {
    if has_discriminator(whirlpoolconfig_disc(), data) {
        in_from(h, WEIGHT_DIRECT, program_id) + out_unless_system(h, WEIGHT_DIRECT, data, 8)
            + out_unless_system(h, WEIGHT_DIRECT, data, 40) + out_unless_system(
            h,
            WEIGHT_DIRECT,
            data,
            72,
        )
    } else if has_discriminator(whirlpool_disc(), data) {
        in_unless_system(h, WEIGHT_DIRECT, data, 8) + out_unless_system(h, WEIGHT_DIRECT, data, 133)
            + out_unless_system(h, WEIGHT_DIRECT, data, 213)
    } else if has_discriminator(tickarray_disc(), data) {
        in_unless_system(h, WEIGHT_DIRECT, data, data.len() - 32)
    } else {
        seq![]
    }
}

/// The account data that the filter can read in full: a config holds at least
/// 104 bytes, a whirlpool at least 245, a tick array at least 32.
pub open spec fn orca_readable(data: Seq<u8>) -> bool {
    if has_discriminator(whirlpoolconfig_disc(), data) {
        data.len() >= 104
    } else if has_discriminator(whirlpool_disc(), data) {
        data.len() >= 245
    } else if has_discriminator(tickarray_disc(), data) {
        data.len() >= 32
    } else {
        true
    }
}

/// Every edge of a readable Orca account is at the account's slot, touches the
/// account, and links it to the program or to an address stored in its data.
/// No end of an edge that is read from the data is the system program.
pub proof fn lemma_orca_edges_sound(program_id: Seq<u8>, h: AccountHeader, data: Seq<u8>)
    requires
        orca_readable(data),
    ensures
        edges_sound(orca_edges(program_id, h, data), h, data, set![program_id]),
        edges_avoid_system(orca_edges(program_id, h, data), h, set![program_id]),
{
    broadcast use group_sound, group_avoids;

    assert(set![program_id].contains(program_id));
}

/// The data of an account matches at most one of the program's discriminators,
/// so the order in which the filter tests them does not change its edges.
pub proof fn lemma_orca_kinds_exclusive(data: Seq<u8>)
    ensures
        (if has_discriminator(whirlpoolconfig_disc(), data) { 1int } else { 0 })
            + (if has_discriminator(whirlpool_disc(), data) { 1int } else { 0 })
            + (if has_discriminator(tickarray_disc(), data) { 1int } else { 0 }) <= 1,
{
    if data.len() >= 8 {
        assert(data.subrange(0, 8)[0] == data[0]);
    }
}

/// A whirlpool config is linked from the program, then links to the addresses
/// at offsets 8, 40 and 72 (its fee authority, collect-protocol-fees authority
/// and reward emissions super authority), each unless it is the system
/// program; there is no other edge.
pub proof fn lemma_orca_config_links(program_id: Seq<u8>, h: AccountHeader, data: Seq<u8>)
    requires
        has_discriminator(whirlpoolconfig_disc(), data),
    ensures
        ({
            let e = orca_edges(program_id, h, data);
            let d = data;
            &&& e.len() == 1int + (if key_at(d, 8) != zero_key() { 1int } else { 0 }) + (if key_at(d, 40) != zero_key() { 1int } else { 0 }) + (if key_at(d, 72) != zero_key() { 1int } else { 0 })
            &&& e[0int] == link(h.slot, WEIGHT_DIRECT, program_id, h.pubkey@)
            &&& key_at(d, 8) != zero_key() ==> e[1int] == link(h.slot, WEIGHT_DIRECT, h.pubkey@, key_at(d, 8))
            &&& key_at(d, 40) != zero_key() ==> e[1int + (if key_at(d, 8) != zero_key() { 1int } else { 0 })] == link(h.slot, WEIGHT_DIRECT, h.pubkey@, key_at(d, 40))
            &&& key_at(d, 72) != zero_key() ==> e[1int + (if key_at(d, 8) != zero_key() { 1int } else { 0 }) + (if key_at(d, 40) != zero_key() { 1int } else { 0 })] == link(h.slot, WEIGHT_DIRECT, h.pubkey@, key_at(d, 72))
        }),
{
    let d = data;
    let p0 = in_from(h, WEIGHT_DIRECT, program_id);
    let p1 = out_unless_system(h, WEIGHT_DIRECT, d, 8);
    let p2 = out_unless_system(h, WEIGHT_DIRECT, d, 40);
    let p3 = out_unless_system(h, WEIGHT_DIRECT, d, 72);
    let s0 = p0;
    let s1 = s0 + p1;
    let s2 = s1 + p2;
    let s3 = s2 + p3;
    assert(orca_edges(program_id, h, data) == s3);
    assert(s3[0int] == s2[0int]);
    assert(s2[0int] == s1[0int]);
    assert(s1[0int] == s0[0int]);
    assert(s0[0int] == p0[0]);
    if key_at(d, 8) != zero_key() {
        assert(s3[1int] == s2[1int]);
        assert(s2[1int] == s1[1int]);
        assert(s1[1int] == p1[0]);
    }
    if key_at(d, 40) != zero_key() {
        assert(s3[1int + (if key_at(d, 8) != zero_key() { 1int } else { 0 })] == s2[1int + (if key_at(d, 8) != zero_key() { 1int } else { 0 })]);
        assert(s2[1int + (if key_at(d, 8) != zero_key() { 1int } else { 0 })] == p2[0]);
    }
    if key_at(d, 72) != zero_key() {
        assert(s3[1int + (if key_at(d, 8) != zero_key() { 1int } else { 0 }) + (if key_at(d, 40) != zero_key() { 1int } else { 0 })] == p3[0]);
    }
}

/// A whirlpool is linked from its config (offset 8), then links to its two
/// token vaults (offsets 133 and 213), each unless it is the system program;
/// there is no other edge.
pub proof fn lemma_orca_whirlpool_links(program_id: Seq<u8>, h: AccountHeader, data: Seq<u8>)
    requires
        has_discriminator(whirlpool_disc(), data),
    ensures
        ({
            let e = orca_edges(program_id, h, data);
            let d = data;
            &&& e.len() == (if key_at(d, 8) != zero_key() { 1int } else { 0 }) + (if key_at(d, 133) != zero_key() { 1int } else { 0 }) + (if key_at(d, 213) != zero_key() { 1int } else { 0 })
            &&& key_at(d, 8) != zero_key() ==> e[0int] == link(h.slot, WEIGHT_DIRECT, key_at(d, 8), h.pubkey@)
            &&& key_at(d, 133) != zero_key() ==> e[(if key_at(d, 8) != zero_key() { 1int } else { 0 })] == link(h.slot, WEIGHT_DIRECT, h.pubkey@, key_at(d, 133))
            &&& key_at(d, 213) != zero_key() ==> e[(if key_at(d, 8) != zero_key() { 1int } else { 0 }) + (if key_at(d, 133) != zero_key() { 1int } else { 0 })] == link(h.slot, WEIGHT_DIRECT, h.pubkey@, key_at(d, 213))
        }),
{
    lemma_orca_kinds_exclusive(data);
    let d = data;
    let p0 = in_unless_system(h, WEIGHT_DIRECT, d, 8);
    let p1 = out_unless_system(h, WEIGHT_DIRECT, d, 133);
    let p2 = out_unless_system(h, WEIGHT_DIRECT, d, 213);
    let s0 = p0;
    let s1 = s0 + p1;
    let s2 = s1 + p2;
    assert(orca_edges(program_id, h, data) == s2);
    if key_at(d, 8) != zero_key() {
        assert(s2[0int] == s1[0int]);
        assert(s1[0int] == s0[0int]);
        assert(s0[0int] == p0[0]);
    }
    if key_at(d, 133) != zero_key() {
        assert(s2[(if key_at(d, 8) != zero_key() { 1int } else { 0 })] == s1[(if key_at(d, 8) != zero_key() { 1int } else { 0 })]);
        assert(s1[(if key_at(d, 8) != zero_key() { 1int } else { 0 })] == p1[0]);
    }
    if key_at(d, 213) != zero_key() {
        assert(s2[(if key_at(d, 8) != zero_key() { 1int } else { 0 }) + (if key_at(d, 133) != zero_key() { 1int } else { 0 })] == p2[0]);
    }
}

/// Edge generator for accounts of the Orca Whirlpool program.
pub struct Orca {
    d_whirlpool: [u8; 8],
    d_whirlpoolconfig: [u8; 8],
    d_tickarray: [u8; 8],
    pub program_id: Pubkey,
}

impl Orca {
    /// The filter holds the three discriminators of the program.
    pub closed spec fn wf(&self) -> bool {
        &&& self.d_whirlpool@ == whirlpool_disc()
        &&& self.d_whirlpoolconfig@ == whirlpoolconfig_disc()
        &&& self.d_tickarray@ == tickarray_disc()
    }

    /// The address of the program that the filter serves.
    pub closed spec fn program(&self) -> Seq<u8> {
        self.program_id@
    }

    pub fn new(program_id: &Pubkey) -> (s: Self)
        ensures
            s.wf(),
            s.program() == program_id@,
    {
        let d_whirlpool = whirlpool_discriminator();
        let d_whirlpoolconfig = whirlpoolconfig_discriminator();
        let d_tickarray = tickarray_discriminator();
        Self { program_id: *program_id, d_whirlpool, d_tickarray, d_whirlpoolconfig }
    }

    /// The programs whose accounts this filter reads.
    pub fn program_id_list(&self) -> (v: Vec<Pubkey>)
        ensures
            v@.len() == 1,
            v@[0]@ == self.program(),
    {
        vec![self.program_id]
    }

    /// Whether `edge` can read this account data in full.
    pub fn readable(&self, data: &[u8]) -> (b: bool)
        requires
            self.wf(),
        ensures
            b == orca_readable(data@),
    {
        if match_discriminator(&self.d_whirlpoolconfig, data) {
            data.len() >= 104
        } else if match_discriminator(&self.d_whirlpool, data) {
            data.len() >= 245
        } else if match_discriminator(&self.d_tickarray, data) {
            data.len() >= 32
        } else {
            true
        }
    }

    /// Lists the edges that the account implies.
    pub fn edge(&self, header: &AccountHeader, data: &[u8]) -> (list: VecDeque<FilterEdge>)
        requires
            self.wf(),
            orca_readable(data@),
        ensures
            edges_view(list@) == orca_edges(self.program(), *header, data@),
    {
        let mut list: VecDeque<FilterEdge> = VecDeque::new();
        let id = header.pubkey;
        assert(edges_view(list@) =~= Seq::<EdgeView>::empty());
        if match_discriminator(&self.d_whirlpoolconfig, data) {
            // program
            push_link(&mut list, header.slot, WEIGHT_DIRECT, self.program_id, id);
            // fee authority
            push_out_unless_system(&mut list, header, WEIGHT_DIRECT, data, 8);
            // collect protocol fees authority
            push_out_unless_system(&mut list, header, WEIGHT_DIRECT, data, 40);
            // reward emissions super authority
            push_out_unless_system(&mut list, header, WEIGHT_DIRECT, data, 72);
        } else if match_discriminator(&self.d_whirlpool, data) {
            // whirlpools config
            push_in_unless_system(&mut list, header, WEIGHT_DIRECT, data, 8);
            // token vault A
            push_out_unless_system(&mut list, header, WEIGHT_DIRECT, data, 133);
            // token vault B
            push_out_unless_system(&mut list, header, WEIGHT_DIRECT, data, 213);
        } else if match_discriminator(&self.d_tickarray, data) {
            // whirlpool
            let i = data.len() - 32;
            push_in_unless_system(&mut list, header, WEIGHT_DIRECT, data, i);
        }
        list
    }
}

/// Discriminator of the `WhirlpoolsConfig` account: 9d 14 31 e0 d9 57 c1 fe.
pub fn whirlpoolconfig_discriminator() -> (d: [u8; 8])
    ensures
        d@ == whirlpoolconfig_disc(),
{
    let d = [157, 20, 49, 224, 217, 87, 193, 254];
    assert(d@ =~= whirlpoolconfig_disc());
    d
}

/// Discriminator of the `Whirlpool` account: 3f 95 d1 0c e1 80 63 09.
pub fn whirlpool_discriminator() -> (d: [u8; 8])
    ensures
        d@ == whirlpool_disc(),
{
    let d = [63, 149, 209, 12, 225, 128, 99, 9];
    assert(d@ =~= whirlpool_disc());
    d
}

/// Discriminator of the `TickArray` account: 45 61 bd be 6e 07 42 bb.
pub fn tickarray_discriminator() -> (d: [u8; 8])
    ensures
        d@ == tickarray_disc(),
{
    let d = [69, 97, 189, 190, 110, 7, 66, 187];
    assert(d@ =~= tickarray_disc());
    d
}

} // verus!
