//! Filter for the Sanctum flat-fee pricing program: the program links to its
//! program state and to each per-LST fee account that it owns.
use std::collections::VecDeque;
use vstd::prelude::*;

use crate::primitive::header::AccountHeader;
use crate::primitive::provenance::{edges_avoid_system, edges_sound, group_avoids, group_sound};
use crate::primitive::pubkey::Pubkey;
use crate::primitive::tree::{edges_view, in_from, link, push_link, EdgeView, FilterEdge, WEIGHT_DIRECT};

verus! {

/// The edges of an account: the program account itself gets a loop on the
/// program; an account that the program owns is linked from the program.
pub open spec fn flat_fee_edges(program_id: Seq<u8>, h: AccountHeader) -> Seq<EdgeView> {
    if h.pubkey@ == program_id {
        seq![link(h.slot, WEIGHT_DIRECT, program_id, program_id)]
    } else if h.owner@ == program_id {
        in_from(h, WEIGHT_DIRECT, program_id)
    } else {
        seq![]
    }
}

/// Every edge is at the account's slot, touches the account, and links it to
/// the program.
pub proof fn lemma_flat_fee_edges_sound(program_id: Seq<u8>, h: AccountHeader, data: Seq<u8>)
    ensures
        edges_sound(flat_fee_edges(program_id, h), h, data, set![program_id]),
        edges_avoid_system(flat_fee_edges(program_id, h), h, set![program_id]),
{
    broadcast use group_sound, group_avoids;

    assert(set![program_id].contains(program_id));
}

/// The program account itself gets one loop on the program; any other account
/// that the program owns is linked from the program; every other account
/// gives no edge. The data is never read.
pub proof fn lemma_flat_fee_links(program_id: Seq<u8>, h: AccountHeader)
    ensures
        h.pubkey@ == program_id ==> flat_fee_edges(program_id, h) == seq![
            link(h.slot, WEIGHT_DIRECT, program_id, program_id),
        ],
        h.pubkey@ != program_id && h.owner@ == program_id ==> flat_fee_edges(program_id, h) == seq![
            link(h.slot, WEIGHT_DIRECT, program_id, h.pubkey@),
        ],
        h.pubkey@ != program_id && h.owner@ != program_id ==> flat_fee_edges(program_id, h).len() == 0,
{
}

/// The pricing configuration subtree rooted at the flat-fee pricing program.
pub struct FlatFeePricing {
    /// The flat-fee pricing program (an executable account).
    pub program_id: Pubkey,
}

impl FlatFeePricing {
    pub fn new(program_id: &Pubkey) -> (s: Self)
        ensures
            s.program_id == *program_id,
    {
        Self { program_id: *program_id }
    }

    /// The programs whose accounts this filter reads.
    pub fn program_id_list(&self) -> (v: Vec<Pubkey>)
        ensures
            v@ == seq![self.program_id],
    {
        vec![self.program_id]
    }

    /// Lists the edges that the account implies; the data is not read.
    pub fn edge(&self, header: &AccountHeader, _data: &[u8]) -> (list: VecDeque<FilterEdge>)
        ensures
            edges_view(list@) == flat_fee_edges(self.program_id@, *header),
    {
        let mut list: VecDeque<FilterEdge> = VecDeque::new();
        let id = header.pubkey;
        assert(edges_view(list@) =~= Seq::<EdgeView>::empty());
        if id.same(&self.program_id) {
            push_link(&mut list, header.slot, WEIGHT_DIRECT, self.program_id, self.program_id);
            return list;
        }
        if header.owner.same(&self.program_id) {
            push_link(&mut list, header.slot, WEIGHT_DIRECT, self.program_id, id);
        }
        list
    }
}

} // verus!
