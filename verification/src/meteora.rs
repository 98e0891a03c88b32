//! Filter for the Meteora DLMM program.
use std::collections::VecDeque;
use vstd::prelude::*;

use crate::primitive::common::{has_discriminator, match_discriminator};
use crate::primitive::header::AccountHeader;
use crate::primitive::provenance::{edges_avoid_system, edges_sound, group_avoids, group_sound, lemma_outs_unless_system_avoids, lemma_outs_unless_system_every_address, lemma_outs_unless_system_sound, lemma_nonsystem_before_monotone, nonsystem_before};
use crate::primitive::pubkey::{key_at, zero_key, Pubkey};
use crate::primitive::tree::{
    edges_view, in_unless_system, link, out_unless_system, outs_unless_system, push_in_unless_system,
    push_out_unless_system, push_outs_unless_system, EdgeView, FilterEdge, WEIGHT_DIRECT,
};

verus! {

/// Discriminator of the `LbPair` account.
pub open spec fn lb_pair_disc() -> Seq<u8> {
    seq![33u8, 11, 49, 98, 181, 101, 177, 13]
}

/// Discriminator of the `Position` account.
pub open spec fn position_disc() -> Seq<u8> {
    seq![170u8, 188, 143, 228, 122, 64, 248, 208]
}

/// Discriminator of the `PositionV2` account.
pub open spec fn position_v2_disc() -> Seq<u8> {
    seq![117u8, 180, 212, 199, 245, 180, 133, 182]
}

/// Discriminator of the `BinArray` account.
pub open spec fn bin_array_disc() -> Seq<u8> {
    seq![92u8, 142, 92, 220, 5, 148, 70, 91]
}

/// The edges of a Meteora DLMM account, skipping system-program addresses:
/// - a pair links to its token X mint, token Y mint, reserve X, reserve Y and
///   oracle, stored one after the other from offset 40;
/// - a position (either version) is linked from its pair (offset 8) and links
///   to its owner (offset 40);
/// - a bin array is linked from its pair (offset 8).
pub open spec fn meteora_edges(h: AccountHeader, data: Seq<u8>) -> Seq<EdgeView> {
    if has_discriminator(lb_pair_disc(), data) {
        outs_unless_system(h, WEIGHT_DIRECT, data, 40, 5)
    } else if has_discriminator(position_disc(), data) || has_discriminator(position_v2_disc(), data) {
        in_unless_system(h, WEIGHT_DIRECT, data, 8) + out_unless_system(h, WEIGHT_DIRECT, data, 40)
    } else if has_discriminator(bin_array_disc(), data) {
        in_unless_system(h, WEIGHT_DIRECT, data, 8)
    } else {
        seq![]
    }
}

/// The smallest data length of each account kind that the filter reads.
pub open spec fn meteora_needed_len(data: Seq<u8>) -> int {
    if has_discriminator(lb_pair_disc(), data) {
        200
    } else if has_discriminator(position_disc(), data) || has_discriminator(position_v2_disc(), data) {
        72
    } else if has_discriminator(bin_array_disc(), data) {
        40
    } else {
        0
    }
}

/// Every edge of a readable Meteora account is at the account's slot, touches
/// the account, and links it to an address stored in its data.
/// No end of an edge that is read from the data is the system program.
pub proof fn lemma_meteora_edges_sound(h: AccountHeader, data: Seq<u8>)
    requires
        data.len() >= meteora_needed_len(data),
    ensures
        edges_sound(meteora_edges(h, data), h, data, Set::empty()),
        edges_avoid_system(meteora_edges(h, data), h, Set::empty()),
{
    broadcast use group_sound, group_avoids;

    if has_discriminator(lb_pair_disc(), data) {
        lemma_outs_unless_system_sound(h, WEIGHT_DIRECT, data, 40, 5, Set::empty());
    }
    lemma_outs_unless_system_avoids(h, WEIGHT_DIRECT, data, 40, 5, Set::empty());
}

/// The data of an account matches at most one of the program's discriminators,
/// so the order in which the filter tests them does not change its edges.
pub proof fn lemma_meteora_kinds_exclusive(data: Seq<u8>)
    ensures
        (if has_discriminator(lb_pair_disc(), data) { 1int } else { 0 })
            + (if has_discriminator(position_disc(), data) { 1int } else { 0 })
            + (if has_discriminator(position_v2_disc(), data) { 1int } else { 0 })
            + (if has_discriminator(bin_array_disc(), data) { 1int } else { 0 }) <= 1,
{
    if data.len() >= 8 {
        assert(data.subrange(0, 8)[0] == data[0]);
    }
}

/// A Meteora position (either version) is linked from its lb pair (offset 8),
/// then links to its owner (offset 40), each unless it is the system program;
/// there is no other edge.
pub proof fn lemma_meteora_position_links(h: AccountHeader, data: Seq<u8>)
    requires
        has_discriminator(position_disc(), data) || has_discriminator(position_v2_disc(), data),
    ensures
        ({
            let e = meteora_edges(h, data);
            let d = data;
            &&& e.len() == (if key_at(d, 8) != zero_key() { 1int } else { 0 }) + (if key_at(d, 40) != zero_key() { 1int } else { 0 })
            &&& key_at(d, 8) != zero_key() ==> e[0int] == link(h.slot, WEIGHT_DIRECT, key_at(d, 8), h.pubkey@)
            &&& key_at(d, 40) != zero_key() ==> e[(if key_at(d, 8) != zero_key() { 1int } else { 0 })] == link(h.slot, WEIGHT_DIRECT, h.pubkey@, key_at(d, 40))
        }),
{
    lemma_meteora_kinds_exclusive(data);
    let d = data;
    let p0 = in_unless_system(h, WEIGHT_DIRECT, d, 8);
    let p1 = out_unless_system(h, WEIGHT_DIRECT, d, 40);
    let s0 = p0;
    let s1 = s0 + p1;
    assert(meteora_edges(h, data) == s1);
    if key_at(d, 8) != zero_key() {
        assert(s1[0int] == s0[0int]);
        assert(s0[0int] == p0[0]);
    }
    if key_at(d, 40) != zero_key() {
        assert(s1[(if key_at(d, 8) != zero_key() { 1int } else { 0 })] == p1[0]);
    }
}

/// A Meteora bin array is linked from its lb pair (offset 8) unless that is the
/// system program; there is no other edge.
pub proof fn lemma_meteora_bin_array_links(h: AccountHeader, data: Seq<u8>)
    requires
        has_discriminator(bin_array_disc(), data),
    ensures
        ({
            let e = meteora_edges(h, data);
            let d = data;
            &&& e.len() == (if key_at(d, 8) != zero_key() { 1int } else { 0 })
            &&& key_at(d, 8) != zero_key() ==> e[0int] == link(h.slot, WEIGHT_DIRECT, key_at(d, 8), h.pubkey@)
        }),
{
    lemma_meteora_kinds_exclusive(data);
    let d = data;
    let p0 = in_unless_system(h, WEIGHT_DIRECT, d, 8);
    let s0 = p0;
    assert(meteora_edges(h, data) == s0);
    if key_at(d, 8) != zero_key() {
        assert(s0[0int] == p0[0]);
    }
}

/// An lb pair links, in order, to each of the five addresses stored one after
/// the other from offset 40 that is not the system program, and to nothing
/// else: the edge of the `j`-th address (at `40 + 32 * j`) comes right after
/// those of the non-system addresses before it.
pub proof fn lemma_meteora_lb_pair_links(h: AccountHeader, data: Seq<u8>)
    requires
        has_discriminator(lb_pair_disc(), data),
    ensures
        ({
            let e = meteora_edges(h, data);
            &&& e.len() == nonsystem_before(data, 40, 5)
            &&& forall|j: int|
                0 <= j < 5 && key_at(data, 40 + 32 * j) != zero_key() ==> #[trigger] e[nonsystem_before(
                    data,
                    40,
                    j as nat,
                ) as int] == link(h.slot, WEIGHT_DIRECT, h.pubkey@, key_at(data, 40 + 32 * j))
        }),
{
    lemma_outs_unless_system_every_address(h, WEIGHT_DIRECT, data, 40, 5);
}

/// Edge generator for accounts of the Meteora DLMM program.
pub struct Meteora {
    d_lb_pair: [u8; 8],
    d_position: [u8; 8],
    d_position_v2: [u8; 8],
    d_bin_array: [u8; 8],
    pub program_id: Pubkey,
}

impl Meteora {
    /// The filter holds the discriminators of the program.
    pub closed spec fn wf(&self) -> bool {
        &&& self.d_lb_pair@ == lb_pair_disc()
        &&& self.d_position@ == position_disc()
        &&& self.d_position_v2@ == position_v2_disc()
        &&& self.d_bin_array@ == bin_array_disc()
    }

    /// The address of the program that the filter serves.
    pub closed spec fn program(&self) -> Seq<u8> {
        self.program_id@
    }

    pub fn new(program_id: &Pubkey) -> (s: Self)
        ensures
            s.wf(),
            s.program() == program_id@,
    {
        let d_lb_pair = lb_pair_discriminator();
        let d_position = position_discriminator();
        let d_position_v2 = position_v2_discriminator();
        let d_bin_array = bin_array_discriminator();
        Self { program_id: *program_id, d_lb_pair, d_position, d_position_v2, d_bin_array }
    }

    /// The programs whose accounts this filter reads.
    pub fn program_id_list(&self) -> (v: Vec<Pubkey>)
        ensures
            v@.len() == 1,
            v@[0]@ == self.program(),
    {
        vec![self.program_id]
    }

    /// The smallest data length that `edge` needs for this account data.
    fn needed_len(&self, data: &[u8]) -> (n: usize)
        requires
            self.wf(),
        ensures
            n == meteora_needed_len(data@),
    {
        if match_discriminator(&self.d_lb_pair, data) {
            200
        } else if match_discriminator(&self.d_position, data) || match_discriminator(
            &self.d_position_v2,
            data,
        ) {
            72
        } else if match_discriminator(&self.d_bin_array, data) {
            40
        } else {
            0
        }
    }

    /// Whether `edge` can read this account data in full.
    pub fn readable(&self, data: &[u8]) -> (b: bool)
        requires
            self.wf(),
        ensures
            b == (data@.len() >= meteora_needed_len(data@)),
    {
        data.len() >= self.needed_len(data)
    }

    /// Lists the edges that the account implies.
    pub fn edge(&self, header: &AccountHeader, data: &[u8]) -> (list: VecDeque<FilterEdge>)
        requires
            self.wf(),
            data@.len() >= meteora_needed_len(data@),
        ensures
            edges_view(list@) == meteora_edges(*header, data@),
    {
        let mut list: VecDeque<FilterEdge> = VecDeque::new();
        let prefix = self.d_lb_pair.len();
        assert(edges_view(list@) =~= Seq::<EdgeView>::empty());
        if match_discriminator(&self.d_lb_pair, data) {
            // token X mint, token Y mint, reserve X, reserve Y, oracle
            push_outs_unless_system(&mut list, header, WEIGHT_DIRECT, data, prefix + 32, 5);
        } else if match_discriminator(&self.d_position, data) || match_discriminator(
            &self.d_position_v2,
            data,
        ) {
            // pair
            push_in_unless_system(&mut list, header, WEIGHT_DIRECT, data, prefix);
            // owner
            push_out_unless_system(&mut list, header, WEIGHT_DIRECT, data, prefix + 32);
        } else if match_discriminator(&self.d_bin_array, data) {
            // pair
            push_in_unless_system(&mut list, header, WEIGHT_DIRECT, data, prefix);
        }
        list
    }
}

/// Discriminator of the `LbPair` account.
pub fn lb_pair_discriminator() -> (d: [u8; 8])
    ensures
        d@ == lb_pair_disc(),
{
    let d = [33, 11, 49, 98, 181, 101, 177, 13];
    assert(d@ =~= lb_pair_disc());
    d
}

/// Discriminator of the `Position` account.
pub fn position_discriminator() -> (d: [u8; 8])
    ensures
        d@ == position_disc(),
{
    let d = [170, 188, 143, 228, 122, 64, 248, 208];
    assert(d@ =~= position_disc());
    d
}

/// Discriminator of the `PositionV2` account.
pub fn position_v2_discriminator() -> (d: [u8; 8])
    ensures
        d@ == position_v2_disc(),
{
    let d = [117, 180, 212, 199, 245, 180, 133, 182];
    assert(d@ =~= position_v2_disc());
    d
}

/// Discriminator of the `BinArray` account.
pub fn bin_array_discriminator() -> (d: [u8; 8])
    ensures
        d@ == bin_array_disc(),
{
    let d = [92, 142, 92, 220, 5, 148, 70, 91];
    assert(d@ =~= bin_array_disc());
    d
}

} // verus!
