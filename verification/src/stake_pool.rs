//! Filter for the SPL Stake Pool program.
//!
//! The first byte of an account tells its type: 1 for a stake pool, 2 for a
//! validator list. A stake pool stores the manager, staker and stake deposit
//! authority at offsets 1, 33 and 65, a bump seed at 97, then the validator
//! list, reserve stake, pool mint, manager fee account and token program at
//! 98, 130, 162, 194 and 226. A validator list has a 32-byte header after the
//! type byte, a `u32` count at 33 and entries of 72 bytes from 37, each
//! starting with the vote account.
use std::collections::VecDeque;
use vstd::prelude::*;

use crate::primitive::common::{le_u32_at, read_u32_le};
use crate::primitive::header::AccountHeader;
use crate::primitive::provenance::{edges_sound, group_sound};
use crate::primitive::pubkey::{key_at, Pubkey};
use crate::primitive::tree::{
    edges_view, in_from, link, out_to, push_link, push_out, EdgeView, FilterEdge, WEIGHT_DIRECT,
    WEIGHT_PROGRAM,
};

verus! {

/// Type byte of an account not yet initialized.
pub const ACCOUNT_TYPE_UNINITIALIZED: u8 = 0;

/// Type byte of a stake pool.
pub const ACCOUNT_TYPE_STAKE_POOL: u8 = 1;

/// Type byte of a validator list.
pub const ACCOUNT_TYPE_VALIDATOR_LIST: u8 = 2;

/// Size of one validator list entry.
pub const VALIDATOR_ENTRY_SIZE: usize = 72;

/// An edge from the account to the address at `off`, where the data holds it.
pub open spec fn out_if_present(h: AccountHeader, data: Seq<u8>, off: int) -> Seq<EdgeView> {
    if off + 32 <= data.len() {
        out_to(h, WEIGHT_DIRECT, key_at(data, off))
    } else {
        seq![]
    }
}

/// The edges of a stake pool: from the program, then to each stored address
/// that the data holds.
pub open spec fn stake_pool_edges(program_id: Seq<u8>, h: AccountHeader, data: Seq<u8>) -> Seq<EdgeView> {
    in_from(h, WEIGHT_PROGRAM, program_id) + out_if_present(h, data, 1) + out_if_present(h, data, 33)
        + out_if_present(h, data, 65) + out_if_present(h, data, 98) + out_if_present(h, data, 130)
        + out_if_present(h, data, 162) + out_if_present(h, data, 194) + out_if_present(h, data, 226)
}

/// The edges to the vote accounts of the `remaining` entries from `off`, up to
/// the first entry whose vote account lies past the end of the data.
pub open spec fn vote_links(h: AccountHeader, data: Seq<u8>, off: int, remaining: nat) -> Seq<EdgeView>
    decreases remaining,
{
    if remaining == 0 || off + 32 > data.len() {
        seq![]
    } else {
        out_to(h, WEIGHT_DIRECT, key_at(data, off)) + vote_links(
            h,
            data,
            off + VALIDATOR_ENTRY_SIZE,
            (remaining - 1) as nat,
        )
    }
}

/// The edges of a validator list: from the program, then, where the count is
/// present, to the vote account of each declared entry that the data holds.
pub open spec fn validator_list_edges(program_id: Seq<u8>, h: AccountHeader, data: Seq<u8>) -> Seq<EdgeView> {
    in_from(h, WEIGHT_PROGRAM, program_id) + if 37 > data.len() {
        seq![]
    } else {
        vote_links(h, data, 37, le_u32_at(data, 33) as nat)
    }
}

/// The edges of an account of the program, by its type byte.
pub open spec fn stake_program_edges(program_id: Seq<u8>, h: AccountHeader, data: Seq<u8>) -> Seq<EdgeView> {
    if data.len() == 0 {
        seq![]
    } else if data[0] == ACCOUNT_TYPE_STAKE_POOL {
        stake_pool_edges(program_id, h, data)
    } else if data[0] == ACCOUNT_TYPE_VALIDATOR_LIST {
        validator_list_edges(program_id, h, data)
    } else {
        seq![]
    }
}

proof fn lemma_out_if_present_sound(h: AccountHeader, data: Seq<u8>, off: int, cfg: Set<Seq<u8>>)
    requires
        0 <= off,
    ensures
        edges_sound(out_if_present(h, data, off), h, data, cfg),
{
    broadcast use group_sound;

}

proof fn lemma_vote_links_sound(h: AccountHeader, data: Seq<u8>, off: int, remaining: nat, cfg: Set<Seq<u8>>)
    requires
        0 <= off,
    ensures
        edges_sound(vote_links(h, data, off, remaining), h, data, cfg),
    decreases remaining,
{
    broadcast use group_sound;

    if remaining > 0 && off + 32 <= data.len() {
        lemma_vote_links_sound(h, data, off + VALIDATOR_ENTRY_SIZE, (remaining - 1) as nat, cfg);
    }
}

/// Every edge of an account of the stake pool program is at the account's slot,
/// touches the account, and links it to the program or to an address stored in
/// its data.
pub proof fn lemma_stake_program_edges_sound(program_id: Seq<u8>, h: AccountHeader, data: Seq<u8>)
    ensures
        edges_sound(stake_program_edges(program_id, h, data), h, data, set![program_id]),
{
    broadcast use group_sound;

    let cfg = set![program_id];
    assert(cfg.contains(program_id));
    lemma_out_if_present_sound(h, data, 1, cfg);
    lemma_out_if_present_sound(h, data, 33, cfg);
    lemma_out_if_present_sound(h, data, 65, cfg);
    lemma_out_if_present_sound(h, data, 98, cfg);
    lemma_out_if_present_sound(h, data, 130, cfg);
    lemma_out_if_present_sound(h, data, 162, cfg);
    lemma_out_if_present_sound(h, data, 194, cfg);
    lemma_out_if_present_sound(h, data, 226, cfg);
    lemma_vote_links_sound(h, data, 37, le_u32_at(data, 33) as nat, cfg);
}

proof fn lemma_vote_links_every_entry(h: AccountHeader, data: Seq<u8>, off: int, r: nat)
    requires
        0 <= off,
        off + VALIDATOR_ENTRY_SIZE * r <= data.len(),
    ensures
        vote_links(h, data, off, r).len() == r,
        forall|k: int|
            0 <= k < r ==> #[trigger] vote_links(h, data, off, r)[k] == link(
                h.slot,
                WEIGHT_DIRECT,
                h.pubkey@,
                key_at(data, off + VALIDATOR_ENTRY_SIZE * k),
            ),
    decreases r,
{
    if r > 0 {
        lemma_vote_links_every_entry(h, data, off + VALIDATOR_ENTRY_SIZE, (r - 1) as nat);
        let first = out_to(h, WEIGHT_DIRECT, key_at(data, off));
        let rest = vote_links(h, data, off + VALIDATOR_ENTRY_SIZE, (r - 1) as nat);
        assert(vote_links(h, data, off, r) == first + rest);
        assert forall|k: int| 0 <= k < r implies #[trigger] vote_links(h, data, off, r)[k] == link(
            h.slot,
            WEIGHT_DIRECT,
            h.pubkey@,
            key_at(data, off + VALIDATOR_ENTRY_SIZE * k),
        ) by {
            if k > 0 {
                assert((first + rest)[k] == rest[k - 1]);
                assert(off + VALIDATOR_ENTRY_SIZE + VALIDATOR_ENTRY_SIZE * (k - 1) == off
                    + VALIDATOR_ENTRY_SIZE * k);
            }
        }
    }
}

/// A validator list whose data holds all `n` entries that its count (the
/// `u32` at offset 33) declares is linked from the program and links to the
/// vote account of every entry, in order: exactly `n + 1` edges, the `k`-th
/// entry's edge going from the account to the 32 bytes at `37 + 72 * k`.
pub proof fn lemma_validator_list_links_every_entry(program_id: Seq<u8>, h: AccountHeader, data: Seq<u8>)
    requires
        data.len() > 0,
        data[0] == ACCOUNT_TYPE_VALIDATOR_LIST,
        37 + 72 * le_u32_at(data, 33) <= data.len(),
    ensures
        ({
            let e = stake_program_edges(program_id, h, data);
            let n = le_u32_at(data, 33);
            &&& e.len() == n + 1
            &&& e[0] == link(h.slot, WEIGHT_PROGRAM, program_id, h.pubkey@)
            &&& forall|k: int|
                0 <= k < n ==> #[trigger] e[k + 1] == link(
                    h.slot,
                    WEIGHT_DIRECT,
                    h.pubkey@,
                    key_at(data, 37 + 72 * k),
                )
        }),
{
    let n = le_u32_at(data, 33);
    assert(n >= 0);
    lemma_vote_links_every_entry(h, data, 37, n as nat);
    let first = in_from(h, WEIGHT_PROGRAM, program_id);
    let rest = vote_links(h, data, 37, n as nat);
    assert(stake_program_edges(program_id, h, data) == first + rest);
    assert forall|k: int| 0 <= k < n implies #[trigger] (first + rest)[k + 1] == link(
        h.slot,
        WEIGHT_DIRECT,
        h.pubkey@,
        key_at(data, 37 + 72 * k),
    ) by {
        assert((first + rest)[k + 1] == rest[k]);
    }
}

/// A stake pool whose data holds all its addresses (at least 258 bytes) is
/// linked from the program and links, in order, to its manager, staker, stake
/// deposit authority, validator list, reserve stake, pool mint, manager fee
/// account and token program: the addresses at 1, 33, 65, 98, 130, 162, 194
/// and 226 (the bump seed at 97 is skipped).
pub proof fn lemma_stake_pool_links_its_addresses(program_id: Seq<u8>, h: AccountHeader, data: Seq<u8>)
    requires
        data.len() >= 258,
        data[0] == ACCOUNT_TYPE_STAKE_POOL,
    ensures
        ({
            let e = stake_program_edges(program_id, h, data);
            let offs = seq![1int, 33, 65, 98, 130, 162, 194, 226];
            &&& e.len() == 9
            &&& e[0] == link(h.slot, WEIGHT_PROGRAM, program_id, h.pubkey@)
            &&& forall|j: int|
                0 <= j < 8 ==> #[trigger] e[j + 1] == link(
                    h.slot,
                    WEIGHT_DIRECT,
                    h.pubkey@,
                    key_at(data, offs[j]),
                )
        }),
{
    let e = stake_program_edges(program_id, h, data);
    let offs = seq![1int, 33, 65, 98, 130, 162, 194, 226];
    let expected = seq![
        link(h.slot, WEIGHT_PROGRAM, program_id, h.pubkey@),
        link(h.slot, WEIGHT_DIRECT, h.pubkey@, key_at(data, 1)),
        link(h.slot, WEIGHT_DIRECT, h.pubkey@, key_at(data, 33)),
        link(h.slot, WEIGHT_DIRECT, h.pubkey@, key_at(data, 65)),
        link(h.slot, WEIGHT_DIRECT, h.pubkey@, key_at(data, 98)),
        link(h.slot, WEIGHT_DIRECT, h.pubkey@, key_at(data, 130)),
        link(h.slot, WEIGHT_DIRECT, h.pubkey@, key_at(data, 162)),
        link(h.slot, WEIGHT_DIRECT, h.pubkey@, key_at(data, 194)),
        link(h.slot, WEIGHT_DIRECT, h.pubkey@, key_at(data, 226)),
    ];
    assert(e =~= expected);
    assert forall|j: int| 0 <= j < 8 implies #[trigger] e[j + 1] == link(
        h.slot,
        WEIGHT_DIRECT,
        h.pubkey@,
        key_at(data, offs[j]),
    ) by {
        assert(e[j + 1] == expected[j + 1]);
    }
}

/// Edge generator for accounts of the SPL Stake Pool program.
pub struct StakePool {
    pub program_id: Pubkey,
}

impl StakePool {
    pub fn new(program_id: &Pubkey) -> (s: Self)
        ensures
            s.program_id == *program_id,
    {
        Self { program_id: *program_id }
    }

    /// The programs whose accounts this filter reads.
    pub fn program_id_list(&self) -> (v: Vec<Pubkey>)
        ensures
            v@ == seq![self.program_id],
    {
        vec![self.program_id]
    }

    /// Lists the edges that the account implies.
    pub fn edge(&self, header: &AccountHeader, data: &[u8]) -> (edges: VecDeque<FilterEdge>)
        ensures
            edges_view(edges@) == stake_program_edges(self.program_id@, *header, data@),
    {
        let mut edges: VecDeque<FilterEdge> = VecDeque::new();
        assert(edges_view(edges@) =~= Seq::<EdgeView>::empty());
        if data.len() == 0 {
            return edges;
        }
        let account_type = data[0];
        if account_type == ACCOUNT_TYPE_STAKE_POOL {
            self.handle_stake_pool(header, data, &mut edges);
        } else if account_type == ACCOUNT_TYPE_VALIDATOR_LIST {
            self.handle_validator_list(header, data, &mut edges);
        }
        edges
    }

    /// Appends the edge to the address at `off`, where the data holds it.
    fn push_if_present(header: &AccountHeader, data: &[u8], off: usize, edges: &mut VecDeque<FilterEdge>)
        requires
            off <= 226,
        ensures
            edges_view(final(edges)@) == edges_view(old(edges)@) + out_if_present(*header, data@, off as int),
    {
        if off + 32 <= data.len() {
            push_out(edges, header, WEIGHT_DIRECT, data, off);
        } else {
            assert(edges_view(edges@) =~= edges_view(edges@) + Seq::<EdgeView>::empty());
        }
    }

    /// Appends the edges of a stake pool.
    fn handle_stake_pool(&self, header: &AccountHeader, data: &[u8], edges: &mut VecDeque<FilterEdge>)
        ensures
            edges_view(final(edges)@) == edges_view(old(edges)@) + stake_pool_edges(
                self.program_id@,
                *header,
                data@,
            ),
    {
        let id = header.pubkey;
        // program -> stake pool
        push_link(edges, header.slot, WEIGHT_PROGRAM, self.program_id, id);
        let mut off: usize = 1;
        // manager
        Self::push_if_present(header, data, off, edges);
        off += 32;
        // staker
        Self::push_if_present(header, data, off, edges);
        off += 32;
        // stake deposit authority
        Self::push_if_present(header, data, off, edges);
        off += 32;
        // bump seed
        off += 1;
        // validator list
        Self::push_if_present(header, data, off, edges);
        off += 32;
        // reserve stake
        Self::push_if_present(header, data, off, edges);
        off += 32;
        // pool mint
        Self::push_if_present(header, data, off, edges);
        off += 32;
        // manager fee account
        Self::push_if_present(header, data, off, edges);
        off += 32;
        // token program
        Self::push_if_present(header, data, off, edges);
    }

    /// Appends the edges of a validator list.
    fn handle_validator_list(&self, header: &AccountHeader, data: &[u8], edges: &mut VecDeque<FilterEdge>)
        ensures
            edges_view(final(edges)@) == edges_view(old(edges)@) + validator_list_edges(
                self.program_id@,
                *header,
                data@,
            ),
    {
        let id = header.pubkey;
        // program -> validator list
        push_link(edges, header.slot, WEIGHT_PROGRAM, self.program_id, id);
        let ghost start = edges_view(edges@);
        // skip the type byte and the 32-byte list header
        let mut offset: usize = 1 + 32;
        if offset + 4 > data.len() {
            assert(edges_view(edges@) =~= start + Seq::<EdgeView>::empty());
            return;
        }
        let len = read_u32_le(data, offset);
        offset += 4;
        let ghost total = vote_links(*header, data@, 37, len as nat);
        let mut k: u32 = 0;
        assert(start + total =~= edges_view(edges@) + vote_links(*header, data@, offset as int, (len - k) as nat));
        while k < len
            invariant_except_break
                k <= len,
                start + total == edges_view(edges@) + vote_links(
                    *header,
                    data@,
                    offset as int,
                    (len - k) as nat,
                ),
            ensures
                start + total == edges_view(edges@),
            decreases len - k,
        {
            if offset > data.len() || data.len() - offset < 32 {
                assert(vote_links(*header, data@, offset as int, (len - k) as nat) =~= Seq::<EdgeView>::empty());
                assert(start + total =~= edges_view(edges@));
                break;
            }
            let ghost rest = vote_links(*header, data@, offset + VALIDATOR_ENTRY_SIZE, (len - k - 1) as nat);
            push_out(edges, header, WEIGHT_DIRECT, data, offset);
            assert(start + total =~= edges_view(edges@) + rest);
            k += 1;
            match offset.checked_add(VALIDATOR_ENTRY_SIZE) {
                Some(o) => {
                    offset = o;
                },
                None => {
                    assert(rest =~= Seq::<EdgeView>::empty());
                    assert(start + total =~= edges_view(edges@));
                    break;
                },
            }
        }
    }
}

} // verus!
