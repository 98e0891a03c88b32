//! Graph edges and the list that a filter fills.
use std::collections::VecDeque;
use vstd::prelude::*;

use super::header::AccountHeader;
use super::pubkey::{key_at, zero_key, Pubkey};

verus! {

/// Kind of link that an edge stands for; the kinds are bit flags.
pub type Weight = u8;

/// The source account stores the address of the target account.
pub const WEIGHT_DIRECT: Weight = 1;

/// The source is the program that owns the target account.
pub const WEIGHT_PROGRAM: Weight = 2;

/// The link is a reference that does not imply ownership.
pub const WEIGHT_SYMLINK: Weight = 4;

/// The source is the mint of the target token account.
pub const WEIGHT_SPLTOKEN_MINT: Weight = 8;

/// The source is the owner of the target token account.
pub const WEIGHT_SPLTOKEN_OWNER: Weight = 16;

/// Marks an edge as leaving the account that was read.
pub const WEIGHT_IS_OUTGOING: Weight = 128;

/// A directed edge between two accounts, observed at a slot.
#[derive(Clone, Copy, Debug, PartialEq, Eq)]
pub struct FilterEdge {
    pub slot: u64,
    pub weight: Weight,
    pub from: Pubkey,
    pub to: Pubkey,
}

/// The mathematical value of an edge: addresses as byte sequences.
pub struct EdgeView {
    pub slot: u64,
    pub weight: Weight,
    pub from: Seq<u8>,
    pub to: Seq<u8>,
}

impl View for FilterEdge {
    type V = EdgeView;

    open spec fn view(&self) -> EdgeView {
        EdgeView { slot: self.slot, weight: self.weight, from: self.from@, to: self.to@ }
    }
}

/// The edges of a list, in order.
pub open spec fn edges_view(s: Seq<FilterEdge>) -> Seq<EdgeView> {
    s.map_values(|e: FilterEdge| e@)
}

/// The edge with the given parts.
pub open spec fn link(slot: u64, weight: Weight, from: Seq<u8>, to: Seq<u8>) -> EdgeView {
    EdgeView { slot, weight, from, to }
}

/// One edge from the account that was read to `to`, at the header's slot.
pub open spec fn out_to(h: AccountHeader, weight: Weight, to: Seq<u8>) -> Seq<EdgeView> {
    seq![link(h.slot, weight, h.pubkey@, to)]
}

/// One edge from `from` to the account that was read, at the header's slot.
pub open spec fn in_from(h: AccountHeader, weight: Weight, from: Seq<u8>) -> Seq<EdgeView> {
    seq![link(h.slot, weight, from, h.pubkey@)]
}

/// An edge from the account to the address stored at `off`, or none where
/// that address is the system program.
pub open spec fn out_unless_system(
    h: AccountHeader,
    weight: Weight,
    data: Seq<u8>,
    off: int,
) -> Seq<EdgeView> {
    if key_at(data, off) == zero_key() {
        seq![]
    } else {
        out_to(h, weight, key_at(data, off))
    }
}

/// An edge from the address stored at `off` to the account, or none where
/// that address is the system program.
pub open spec fn in_unless_system(
    h: AccountHeader,
    weight: Weight,
    data: Seq<u8>,
    off: int,
) -> Seq<EdgeView> {
    if key_at(data, off) == zero_key() {
        seq![]
    } else {
        in_from(h, weight, key_at(data, off))
    }
}

/// Appends the edge `from -> to` to the list.
pub fn push_link(list: &mut VecDeque<FilterEdge>, slot: u64, weight: Weight, from: Pubkey, to: Pubkey)
    ensures
        edges_view(final(list)@) == edges_view(old(list)@) + seq![link(slot, weight, from@, to@)],
{
    let ghost before = list@;
    let e = FilterEdge { slot, weight, from, to };
    list.push_back(e);
    assert(edges_view(list@) =~= edges_view(before) + seq![link(slot, weight, from@, to@)]);
}

/// Appends the edge from the account to the address at `data[off..off + 32]`,
/// unless that address is the system program.
pub fn push_out_unless_system(
    list: &mut VecDeque<FilterEdge>,
    h: &AccountHeader,
    weight: Weight,
    data: &[u8],
    off: usize,
)
    requires
        off + 32 <= data@.len(),
    ensures
        edges_view(final(list)@) == edges_view(old(list)@) + out_unless_system(*h, weight, data@, off as int),
{
    let k = Pubkey::read_at(data, off);
    if k.is_system() {
        assert(edges_view(list@) =~= edges_view(list@) + Seq::<EdgeView>::empty());
    } else {
        push_link(list, h.slot, weight, h.pubkey, k);
    }
}

/// Appends the edge from the address at `data[off..off + 32]` to the account,
/// unless that address is the system program.
pub fn push_in_unless_system(
    list: &mut VecDeque<FilterEdge>,
    h: &AccountHeader,
    weight: Weight,
    data: &[u8],
    off: usize,
)
    requires
        off + 32 <= data@.len(),
    ensures
        edges_view(final(list)@) == edges_view(old(list)@) + in_unless_system(*h, weight, data@, off as int),
{
    let k = Pubkey::read_at(data, off);
    if k.is_system() {
        assert(edges_view(list@) =~= edges_view(list@) + Seq::<EdgeView>::empty());
    } else {
        push_link(list, h.slot, weight, k, h.pubkey);
    }
}

/// For each of the `count` addresses stored one after the other from `start`,
/// an edge from the account to it, unless it is the system program.
pub open spec fn outs_unless_system(
    h: AccountHeader,
    weight: Weight,
    data: Seq<u8>,
    start: int,
    count: nat,
) -> Seq<EdgeView>
    decreases count,
{
    if count == 0 {
        seq![]
    } else {
        outs_unless_system(h, weight, data, start, (count - 1) as nat) + out_unless_system(
            h,
            weight,
            data,
            start + 32 * (count - 1),
        )
    }
}

/// Appends the edge from the account to the address at `data[off..off + 32]`.
pub fn push_out(list: &mut VecDeque<FilterEdge>, h: &AccountHeader, weight: Weight, data: &[u8], off: usize)
    requires
        off + 32 <= data@.len(),
    ensures
        edges_view(final(list)@) == edges_view(old(list)@) + out_to(*h, weight, key_at(data@, off as int)),
{
    let k = Pubkey::read_at(data, off);
    push_link(list, h.slot, weight, h.pubkey, k);
}

/// Appends the edge from the address at `data[off..off + 32]` to the account.
pub fn push_in(list: &mut VecDeque<FilterEdge>, h: &AccountHeader, weight: Weight, data: &[u8], off: usize)
    requires
        off + 32 <= data@.len(),
    ensures
        edges_view(final(list)@) == edges_view(old(list)@) + in_from(*h, weight, key_at(data@, off as int)),
{
    let k = Pubkey::read_at(data, off);
    push_link(list, h.slot, weight, k, h.pubkey);
}

/// Appends, for each of the `count` addresses stored one after the other from
/// `start`, the edge from the account to it, unless it is the system program.
pub fn push_outs_unless_system(
    list: &mut VecDeque<FilterEdge>,
    h: &AccountHeader,
    weight: Weight,
    data: &[u8],
    start: usize,
    count: usize,
)
    requires
        start + 32 * count <= data.len(),
    ensures
        edges_view(final(list)@) == edges_view(old(list)@) + outs_unless_system(
            *h,
            weight,
            data@,
            start as int,
            count as nat,
        ),
{
    let ghost before = edges_view(list@);
    let mut k: usize = 0;
    let mut off: usize = start;
    assert(before =~= before + outs_unless_system(*h, weight, data@, start as int, 0));
    while k < count
        invariant
            0 <= k <= count,
            off == start + 32 * k,
            start + 32 * count <= data.len(),
            edges_view(list@) == before + outs_unless_system(*h, weight, data@, start as int, k as nat),
        decreases count - k,
    {
        push_out_unless_system(list, h, weight, data, off);
        k = k + 1;
        assert(edges_view(list@) =~= before + outs_unless_system(*h, weight, data@, start as int, k as nat));
        off = off + 32;
    }
}

} // verus!
