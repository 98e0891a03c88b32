//! What every edge that a filter lists is made of: it is observed at the
//! account's slot, it touches the account, and each of its ends is the account,
//! one of the filter's own addresses, or an address stored in the account data.
use vstd::prelude::*;

use super::header::AccountHeader;
use super::pubkey::{key_at, zero_key};
use super::tree::{
    in_from, in_unless_system, link, out_to, out_unless_system, outs_unless_system, EdgeView,
    Weight,
};

verus! {

/// Whether `k` is one of the 32-byte windows of `data`.
pub open spec fn stored_in(k: Seq<u8>, data: Seq<u8>) -> bool {
    exists|off: int| 0 <= off && off + 32 <= data.len() && #[trigger] key_at(data, off) == k
}

/// Whether `k` is the account, one of the filter's addresses `cfg`, or stored in the data.
pub open spec fn known_end(k: Seq<u8>, h: AccountHeader, data: Seq<u8>, cfg: Set<Seq<u8>>) -> bool {
    k == h.pubkey@ || cfg.contains(k) || stored_in(k, data)
}

/// Whether an edge is at the account's slot, touches the account, and has known ends.
pub open spec fn edge_sound(e: EdgeView, h: AccountHeader, data: Seq<u8>, cfg: Set<Seq<u8>>) -> bool {
    &&& e.slot == h.slot
    &&& e.from == h.pubkey@ || e.to == h.pubkey@
    &&& known_end(e.from, h, data, cfg)
    &&& known_end(e.to, h, data, cfg)
}

/// Whether every edge of `s` is sound.
pub open spec fn edges_sound(s: Seq<EdgeView>, h: AccountHeader, data: Seq<u8>, cfg: Set<Seq<u8>>) -> bool {
    forall|i: int| 0 <= i < s.len() ==> edge_sound(#[trigger] s[i], h, data, cfg)
}

/// The address at any in-range offset is stored in the data.
pub proof fn lemma_stored(data: Seq<u8>, off: int)
    requires
        0 <= off,
        off + 32 <= data.len(),
    ensures
        stored_in(key_at(data, off), data),
{
}

/// Two sound lists make a sound list.
pub broadcast proof fn lemma_concat_sound(
    a: Seq<EdgeView>,
    b: Seq<EdgeView>,
    h: AccountHeader,
    data: Seq<u8>,
    cfg: Set<Seq<u8>>,
)
    requires
        edges_sound(a, h, data, cfg),
        edges_sound(b, h, data, cfg),
    ensures
        #[trigger] edges_sound(a + b, h, data, cfg),
{
    assert forall|i: int| 0 <= i < (a + b).len() implies edge_sound(#[trigger] (a + b)[i], h, data, cfg) by {
        if i < a.len() {
            assert((a + b)[i] == a[i]);
        } else {
            assert((a + b)[i] == b[i - a.len()]);
        }
    }
}

/// An edge into the account from an address stored in the data is sound.
pub broadcast proof fn lemma_in_stored_sound(h: AccountHeader, w: Weight, data: Seq<u8>, off: int, cfg: Set<Seq<u8>>)
    requires
        0 <= off,
        off + 32 <= data.len(),
    ensures
        #[trigger] edges_sound(in_from(h, w, key_at(data, off)), h, data, cfg),
{
    lemma_stored(data, off);
}

/// An edge from the account to an address stored in the data is sound.
pub broadcast proof fn lemma_out_stored_sound(h: AccountHeader, w: Weight, data: Seq<u8>, off: int, cfg: Set<Seq<u8>>)
    requires
        0 <= off,
        off + 32 <= data.len(),
    ensures
        #[trigger] edges_sound(out_to(h, w, key_at(data, off)), h, data, cfg),
{
    lemma_stored(data, off);
}

/// The edges to a run of stored addresses are sound.
pub proof fn lemma_outs_unless_system_sound(
    h: AccountHeader,
    w: Weight,
    data: Seq<u8>,
    start: int,
    count: nat,
    cfg: Set<Seq<u8>>,
)
    requires
        0 <= start,
        start + 32 * count <= data.len(),
    ensures
        edges_sound(outs_unless_system(h, w, data, start, count), h, data, cfg),
    decreases count,
{
    if count > 0 {
        lemma_outs_unless_system_sound(h, w, data, start, (count - 1) as nat, cfg);
        lemma_out_stored_sound(h, w, data, start + 32 * (count - 1), cfg);
        lemma_concat_sound(
            outs_unless_system(h, w, data, start, (count - 1) as nat),
            out_unless_system(h, w, data, start + 32 * (count - 1)),
            h,
            data,
            cfg,
        );
    }
}

/// Soundness with respect to the data after a prefix carries over to the whole data.
pub proof fn lemma_sound_after_prefix(
    s: Seq<EdgeView>,
    h: AccountHeader,
    data: Seq<u8>,
    skip: int,
    cfg: Set<Seq<u8>>,
)
    requires
        0 <= skip <= data.len(),
        edges_sound(s, h, data.subrange(skip, data.len() as int), cfg),
    ensures
        edges_sound(s, h, data, cfg),
{
    let sub = data.subrange(skip, data.len() as int);
    assert forall|k: Seq<u8>| stored_in(k, sub) implies stored_in(k, data) by {
        let off = choose|off: int| 0 <= off && off + 32 <= sub.len() && #[trigger] key_at(sub, off) == k;
        assert(key_at(data, off + skip) =~= key_at(sub, off));
    }
    assert forall|i: int| 0 <= i < s.len() implies edge_sound(#[trigger] s[i], h, data, cfg) by {
        assert(edge_sound(s[i], h, sub, cfg));
    }
}

/// An edge into the account from a stored address, if any, is sound.
pub broadcast proof fn lemma_in_unless_system_sound(h: AccountHeader, w: Weight, data: Seq<u8>, off: int, cfg: Set<Seq<u8>>)
    requires
        0 <= off,
        off + 32 <= data.len(),
    ensures
        #[trigger] edges_sound(in_unless_system(h, w, data, off), h, data, cfg),
{
    lemma_stored(data, off);
}

/// An edge from the account to a stored address, if any, is sound.
pub broadcast proof fn lemma_out_unless_system_sound(h: AccountHeader, w: Weight, data: Seq<u8>, off: int, cfg: Set<Seq<u8>>)
    requires
        0 <= off,
        off + 32 <= data.len(),
    ensures
        #[trigger] edges_sound(out_unless_system(h, w, data, off), h, data, cfg),
{
    lemma_stored(data, off);
}

/// An edge into the account from one of the filter's addresses is sound.
pub broadcast proof fn lemma_in_from_cfg_sound(h: AccountHeader, w: Weight, k: Seq<u8>, data: Seq<u8>, cfg: Set<Seq<u8>>)
    requires
        cfg.contains(k),
    ensures
        #[trigger] edges_sound(in_from(h, w, k), h, data, cfg),
{
}

/// An edge from the account to one of the filter's addresses is sound.
pub broadcast proof fn lemma_out_to_cfg_sound(h: AccountHeader, w: Weight, k: Seq<u8>, data: Seq<u8>, cfg: Set<Seq<u8>>)
    requires
        cfg.contains(k),
    ensures
        #[trigger] edges_sound(out_to(h, w, k), h, data, cfg),
{
}

/// The empty list is sound.
pub broadcast proof fn lemma_empty_seq_sound(h: AccountHeader, data: Seq<u8>, cfg: Set<Seq<u8>>)
    ensures
        #[trigger] edges_sound(Seq::<EdgeView>::empty(), h, data, cfg),
{
}

/// The facts that prove a list of edges sound, piece by piece.
pub broadcast group group_sound {
    lemma_concat_sound,
    lemma_in_stored_sound,
    lemma_out_stored_sound,
    lemma_in_unless_system_sound,
    lemma_out_unless_system_sound,
    lemma_in_from_cfg_sound,
    lemma_out_to_cfg_sound,
    lemma_empty_seq_sound,
}

/// Whether `k` is the account, one of the filter's addresses, or not the system program.
pub open spec fn end_not_system(k: Seq<u8>, h: AccountHeader, cfg: Set<Seq<u8>>) -> bool {
    k == h.pubkey@ || cfg.contains(k) || k != zero_key()
}

/// Whether no edge of `s` has an end, other than the account or the filter's
/// addresses, that is the system program.
pub open spec fn edges_avoid_system(s: Seq<EdgeView>, h: AccountHeader, cfg: Set<Seq<u8>>) -> bool {
    forall|i: int|
        0 <= i < s.len() ==> end_not_system((#[trigger] s[i]).from, h, cfg) && end_not_system(
            s[i].to,
            h,
            cfg,
        )
}

/// Two lists that avoid the system program make one that does.
pub broadcast proof fn lemma_concat_avoids(a: Seq<EdgeView>, b: Seq<EdgeView>, h: AccountHeader, cfg: Set<Seq<u8>>)
    requires
        edges_avoid_system(a, h, cfg),
        edges_avoid_system(b, h, cfg),
    ensures
        #[trigger] edges_avoid_system(a + b, h, cfg),
{
    assert forall|i: int| 0 <= i < (a + b).len() implies end_not_system((#[trigger] (a + b)[i]).from, h, cfg)
        && end_not_system((a + b)[i].to, h, cfg) by {
        if i < a.len() {
            assert((a + b)[i] == a[i]);
        } else {
            assert((a + b)[i] == b[i - a.len()]);
        }
    }
}

/// The edge to or from a stored address, kept only where that address is not
/// the system program, avoids the system program.
pub broadcast proof fn lemma_in_unless_system_avoids(h: AccountHeader, w: Weight, data: Seq<u8>, off: int, cfg: Set<Seq<u8>>)
    ensures
        #[trigger] edges_avoid_system(in_unless_system(h, w, data, off), h, cfg),
{
}

/// The edge to or from a stored address, kept only where that address is not
/// the system program, avoids the system program.
pub broadcast proof fn lemma_out_unless_system_avoids(h: AccountHeader, w: Weight, data: Seq<u8>, off: int, cfg: Set<Seq<u8>>)
    ensures
        #[trigger] edges_avoid_system(out_unless_system(h, w, data, off), h, cfg),
{
}

/// An edge from one of the filter's addresses avoids the system program.
pub broadcast proof fn lemma_in_from_cfg_avoids(h: AccountHeader, w: Weight, k: Seq<u8>, cfg: Set<Seq<u8>>)
    requires
        cfg.contains(k),
    ensures
        #[trigger] edges_avoid_system(in_from(h, w, k), h, cfg),
{
}

/// An edge to one of the filter's addresses avoids the system program.
pub broadcast proof fn lemma_out_to_cfg_avoids(h: AccountHeader, w: Weight, k: Seq<u8>, cfg: Set<Seq<u8>>)
    requires
        cfg.contains(k),
    ensures
        #[trigger] edges_avoid_system(out_to(h, w, k), h, cfg),
{
}

/// The empty list avoids the system program.
pub broadcast proof fn lemma_empty_avoids(h: AccountHeader, cfg: Set<Seq<u8>>)
    ensures
        #[trigger] edges_avoid_system(Seq::<EdgeView>::empty(), h, cfg),
{
}

/// The edges to a run of stored addresses avoid the system program.
pub proof fn lemma_outs_unless_system_avoids(
    h: AccountHeader,
    w: Weight,
    data: Seq<u8>,
    start: int,
    count: nat,
    cfg: Set<Seq<u8>>,
)
    ensures
        edges_avoid_system(outs_unless_system(h, w, data, start, count), h, cfg),
    decreases count,
{
    broadcast use group_avoids;

    if count > 0 {
        lemma_outs_unless_system_avoids(h, w, data, start, (count - 1) as nat, cfg);
    }
}

/// The facts that prove a list of edges free of the system program, piece by piece.
pub broadcast group group_avoids {
    lemma_concat_avoids,
    lemma_in_unless_system_avoids,
    lemma_out_unless_system_avoids,
    lemma_in_from_cfg_avoids,
    lemma_out_to_cfg_avoids,
    lemma_empty_avoids,
}


/// The number of addresses among the first `k` stored one after the other from
/// `start` that are not the system program.
pub open spec fn nonsystem_before(data: Seq<u8>, start: int, k: nat) -> nat
    decreases k,
{
    if k == 0 {
        0
    } else {
        nonsystem_before(data, start, (k - 1) as nat) + if key_at(data, start + 32 * (k - 1))
            != zero_key() {
            1nat
        } else {
            0nat
        }
    }
}

/// `nonsystem_before` grows with `k`.
pub proof fn lemma_nonsystem_before_monotone(data: Seq<u8>, start: int, a: nat, b: nat)
    requires
        a <= b,
    ensures
        nonsystem_before(data, start, a) <= nonsystem_before(data, start, b),
    decreases b,
{
    if a < b {
        lemma_nonsystem_before_monotone(data, start, a, (b - 1) as nat);
    }
}

/// A run of stored addresses gives, in order, one edge from the account to each
/// of them that is not the system program, and no other edge: the edge of the
/// `j`-th address comes right after those of the non-system addresses before it.
pub proof fn lemma_outs_unless_system_every_address(
    h: AccountHeader,
    w: Weight,
    data: Seq<u8>,
    start: int,
    count: nat,
)
    ensures
        outs_unless_system(h, w, data, start, count).len() == nonsystem_before(data, start, count),
        forall|j: int|
            0 <= j < count && key_at(data, start + 32 * j) != zero_key() ==> #[trigger] outs_unless_system(
                h,
                w,
                data,
                start,
                count,
            )[nonsystem_before(data, start, j as nat) as int] == link(
                h.slot,
                w,
                h.pubkey@,
                key_at(data, start + 32 * j),
            ),
    decreases count,
{
    if count > 0 {
        let p = (count - 1) as nat;
        lemma_outs_unless_system_every_address(h, w, data, start, p);
        let a = outs_unless_system(h, w, data, start, p);
        let b = out_unless_system(h, w, data, start + 32 * p);
        assert(outs_unless_system(h, w, data, start, count) == a + b);
        assert forall|j: int| 0 <= j < count && key_at(data, start + 32 * j) != zero_key() implies #[trigger] (a
            + b)[nonsystem_before(data, start, j as nat) as int] == link(
            h.slot,
            w,
            h.pubkey@,
            key_at(data, start + 32 * j),
        ) by {
            if j < p {
                lemma_nonsystem_before_monotone(data, start, (j + 1) as nat, p);
                assert(nonsystem_before(data, start, (j + 1) as nat) == nonsystem_before(data, start, j as nat) + 1);
                assert((a + b)[nonsystem_before(data, start, j as nat) as int] == a[nonsystem_before(
                    data,
                    start,
                    j as nat,
                ) as int]);
            } else {
                assert((a + b)[nonsystem_before(data, start, j as nat) as int] == b[0]);
            }
        }
    }
}

} // verus!
