//! Filter for the Sanctum Infinity controller, keyed by hard-coded root accounts.
//!
//! The pool state stores five addresses from offset 16: admin, rebalance
//! authority, protocol fee beneficiary, pricing program and LP token mint.
//! An LST list entry is 80 bytes: 16 bytes of flags, the mint, the calculator.
use std::collections::VecDeque;
use vstd::prelude::*;

use crate::primitive::header::AccountHeader;
use crate::primitive::provenance::{edges_sound, group_sound, known_end, lemma_stored};
use crate::primitive::pubkey::{key_at, Pubkey};
use crate::primitive::solana::{
    token_account_valid, token_program_id, token_program_key, unpack_token_account,
};
use crate::primitive::tree::{
    edges_view, in_from, link, out_to, push_link, push_out, EdgeView, FilterEdge, WEIGHT_DIRECT,
};

verus! {

/// Size of one entry of the LST list.
pub const LST_ENTRY_SIZE: usize = 80;

/// For each of the first `n` entries of an LST list, an edge from the list to
/// the entry's mint (offset 16 in the entry) and an edge from the mint to the
/// entry's calculator (offset 48).
pub open spec fn lst_entry_links(h: AccountHeader, data: Seq<u8>, n: nat) -> Seq<EdgeView>
    decreases n,
{
    if n == 0 {
        seq![]
    } else {
        let off = LST_ENTRY_SIZE * (n - 1);
        lst_entry_links(h, data, (n - 1) as nat) + out_to(h, WEIGHT_DIRECT, key_at(data, off + 16))
            + seq![link(h.slot, WEIGHT_DIRECT, key_at(data, off + 16), key_at(data, off + 48))]
    }
}

/// The edges of an account, checked in this order:
/// - the controller: from the program, to the pool state, to the LST list;
/// - the pool state: to each of the five addresses stored from offset 16;
/// - the LST list: for each whole 80-byte entry, to its mint, and from the mint
///   to its calculator;
/// - an SPL token account that `Account::unpack` accepts and that the pool state
///   owns (a pool reserve): from the pool state, and to the token's mint.
pub open spec fn infinity_edges(f: Infinity, h: AccountHeader, data: Seq<u8>) -> Seq<EdgeView> {
    if h.pubkey@ == f.controller@ {
        in_from(h, WEIGHT_DIRECT, f.program_id@) + out_to(h, WEIGHT_DIRECT, f.pool_state@) + out_to(
            h,
            WEIGHT_DIRECT,
            f.lst_list@,
        )
    } else if h.pubkey@ == f.pool_state@ {
        out_to(h, WEIGHT_DIRECT, key_at(data, 16)) + out_to(h, WEIGHT_DIRECT, key_at(data, 48))
            + out_to(h, WEIGHT_DIRECT, key_at(data, 80)) + out_to(h, WEIGHT_DIRECT, key_at(data, 112))
            + out_to(h, WEIGHT_DIRECT, key_at(data, 144))
    } else if h.pubkey@ == f.lst_list@ {
        lst_entry_links(h, data, data.len() / LST_ENTRY_SIZE as nat)
    } else if h.owner@ == token_program_key() && token_account_valid(data) && key_at(data, 32)
        == f.pool_state@ {
        in_from(h, WEIGHT_DIRECT, f.pool_state@) + out_to(h, WEIGHT_DIRECT, key_at(data, 0))
    } else {
        seq![]
    }
}

/// The account data that the filter can read in full: the pool state holds at
/// least 176 bytes.
pub open spec fn infinity_readable(f: Infinity, h: AccountHeader, data: Seq<u8>) -> bool {
    h.pubkey@ != f.controller@ && h.pubkey@ == f.pool_state@ ==> data.len() >= 176
}

/// Every edge of a readable account other than the LST list is at the
/// account's slot, touches the account, and links it to the program, the pool
/// state, the LST list, or an address stored in its data.
pub proof fn lemma_infinity_edges_sound(f: Infinity, h: AccountHeader, data: Seq<u8>)
    requires
        infinity_readable(f, h, data),
        h.pubkey@ == f.controller@ || h.pubkey@ == f.pool_state@ || h.pubkey@ != f.lst_list@,
    ensures
        edges_sound(
            infinity_edges(f, h, data),
            h,
            data,
            set![f.program_id@, f.pool_state@, f.lst_list@],
        ),
{
    broadcast use group_sound;

    let cfg = set![f.program_id@, f.pool_state@, f.lst_list@];
    assert(cfg.contains(f.program_id@));
    assert(cfg.contains(f.pool_state@));
    assert(cfg.contains(f.lst_list@));
}

/// Whether every edge of `s` is at the account's slot and has both ends among
/// the account and the addresses stored in its data.
pub open spec fn edges_stored(s: Seq<EdgeView>, h: AccountHeader, data: Seq<u8>) -> bool {
    forall|i: int|
        0 <= i < s.len() ==> {
            &&& (#[trigger] s[i]).slot == h.slot
            &&& known_end(s[i].from, h, data, Set::empty())
            &&& known_end(s[i].to, h, data, Set::empty())
        }
}

proof fn lemma_lst_entry_links_stored(h: AccountHeader, data: Seq<u8>, n: nat)
    requires
        LST_ENTRY_SIZE * n <= data.len(),
    ensures
        edges_stored(lst_entry_links(h, data, n), h, data),
    decreases n,
{
    if n > 0 {
        let off = LST_ENTRY_SIZE * (n - 1);
        lemma_lst_entry_links_stored(h, data, (n - 1) as nat);
        lemma_stored(data, off + 16);
        lemma_stored(data, off + 48);
        let a = lst_entry_links(h, data, (n - 1) as nat);
        let b = out_to(h, WEIGHT_DIRECT, key_at(data, off + 16)) + seq![
            link(h.slot, WEIGHT_DIRECT, key_at(data, off + 16), key_at(data, off + 48)),
        ];
        assert(lst_entry_links(h, data, n) =~= a + b);
        assert forall|i: int| 0 <= i < (a + b).len() implies {
            &&& (#[trigger] (a + b)[i]).slot == h.slot
            &&& known_end((a + b)[i].from, h, data, Set::empty())
            &&& known_end((a + b)[i].to, h, data, Set::empty())
        } by {
            if i < a.len() {
                assert((a + b)[i] == a[i]);
            } else {
                assert((a + b)[i] == b[i - a.len()]);
            }
        }
    }
}

/// Every edge of the LST list is at the account's slot, and each of its ends is
/// the list itself or an address stored in the list. (The mint-to-calculator
/// edges do not touch the list.)
pub proof fn lemma_infinity_lst_edges_stored(f: Infinity, h: AccountHeader, data: Seq<u8>)
    requires
        h.pubkey@ == f.lst_list@,
        h.pubkey@ != f.controller@,
        h.pubkey@ != f.pool_state@,
    ensures
        edges_stored(infinity_edges(f, h, data), h, data),
{
    let n = data.len() / LST_ENTRY_SIZE as nat;
    assert(LST_ENTRY_SIZE * n <= data.len()) by (nonlinear_arith)
        requires
            n == data.len() / 80,
    ;
    lemma_lst_entry_links_stored(h, data, n);
}

proof fn lemma_lst_entry_links_every_entry(h: AccountHeader, data: Seq<u8>, n: nat)
    ensures
        lst_entry_links(h, data, n).len() == 2 * n,
        forall|k: int|
            0 <= k < n ==> {
                &&& #[trigger] lst_entry_links(h, data, n)[2 * k] == link(
                    h.slot,
                    WEIGHT_DIRECT,
                    h.pubkey@,
                    key_at(data, 80 * k + 16),
                )
                &&& lst_entry_links(h, data, n)[2 * k + 1] == link(
                    h.slot,
                    WEIGHT_DIRECT,
                    key_at(data, 80 * k + 16),
                    key_at(data, 80 * k + 48),
                )
            },
    decreases n,
{
    if n > 0 {
        let p = (n - 1) as nat;
        lemma_lst_entry_links_every_entry(h, data, p);
        let a = lst_entry_links(h, data, p);
        let off = LST_ENTRY_SIZE * p;
        let b = out_to(h, WEIGHT_DIRECT, key_at(data, off + 16)) + seq![
            link(h.slot, WEIGHT_DIRECT, key_at(data, off + 16), key_at(data, off + 48)),
        ];
        assert(lst_entry_links(h, data, n) == a + b);
        assert forall|k: int| 0 <= k < n implies {
            &&& #[trigger] (a + b)[2 * k] == link(h.slot, WEIGHT_DIRECT, h.pubkey@, key_at(data, 80 * k + 16))
            &&& (a + b)[2 * k + 1] == link(
                h.slot,
                WEIGHT_DIRECT,
                key_at(data, 80 * k + 16),
                key_at(data, 80 * k + 48),
            )
        } by {
            if k < p {
                assert((a + b)[2 * k] == a[2 * k]);
                assert((a + b)[2 * k + 1] == a[2 * k + 1]);
            } else {
                assert((a + b)[2 * k] == b[0]);
                assert((a + b)[2 * k + 1] == b[1]);
            }
        }
    }
}

/// The LST list is read entry by entry: for each of its `len / 80` whole
/// 80-byte entries, in order, an edge from the list to the entry's mint
/// (bytes 16..48 of the entry) and an edge from that mint to the entry's
/// calculator (bytes 48..80); nothing else.
pub proof fn lemma_infinity_lst_list_links_every_entry(f: Infinity, h: AccountHeader, data: Seq<u8>)
    requires
        h.pubkey@ == f.lst_list@,
        h.pubkey@ != f.controller@,
        h.pubkey@ != f.pool_state@,
    ensures
        ({
            let e = infinity_edges(f, h, data);
            let n = data.len() / 80;
            &&& e.len() == 2 * n
            &&& forall|k: int|
                0 <= k < n ==> {
                    &&& #[trigger] e[2 * k] == link(h.slot, WEIGHT_DIRECT, h.pubkey@, key_at(data, 80 * k + 16))
                    &&& e[2 * k + 1] == link(
                        h.slot,
                        WEIGHT_DIRECT,
                        key_at(data, 80 * k + 16),
                        key_at(data, 80 * k + 48),
                    )
                }
        }),
{
    lemma_lst_entry_links_every_entry(h, data, data.len() / 80);
}

/// The controller is linked from the program, then links to the pool state and
/// to the LST list; there is no other edge.
pub proof fn lemma_infinity_controller_links(f: Infinity, h: AccountHeader, data: Seq<u8>)
    requires
        h.pubkey@ == f.controller@,
    ensures
        ({
            let e = infinity_edges(f, h, data);
            let d = data;
            &&& e.len() == 1int + 1int + 1int
            &&& e[0int] == link(h.slot, WEIGHT_DIRECT, f.program_id@, h.pubkey@)
            &&& e[1int] == link(h.slot, WEIGHT_DIRECT, h.pubkey@, f.pool_state@)
            &&& e[1int + 1int] == link(h.slot, WEIGHT_DIRECT, h.pubkey@, f.lst_list@)
        }),
{
    let d = data;
    let p0 = in_from(h, WEIGHT_DIRECT, f.program_id@);
    let p1 = out_to(h, WEIGHT_DIRECT, f.pool_state@);
    let p2 = out_to(h, WEIGHT_DIRECT, f.lst_list@);
    let s0 = p0;
    let s1 = s0 + p1;
    let s2 = s1 + p2;
    assert(infinity_edges(f, h, data) == s2);
    assert(s2[0int] == s1[0int]);
    assert(s1[0int] == s0[0int]);
    assert(s0[0int] == p0[0]);
    assert(s2[1int] == s1[1int]);
    assert(s1[1int] == p1[0]);
    assert(s2[1int + 1int] == p2[0]);
}

/// The pool state links, in order, to its admin (offset 16), rebalance
/// authority (48), protocol fee beneficiary (80), pricing program (112) and
/// LP token mint (144); there is no other edge.
pub proof fn lemma_infinity_pool_state_links(f: Infinity, h: AccountHeader, data: Seq<u8>)
    requires
        h.pubkey@ == f.pool_state@,
        h.pubkey@ != f.controller@,
    ensures
        ({
            let e = infinity_edges(f, h, data);
            let d = data;
            &&& e.len() == 1int + 1int + 1int + 1int + 1int
            &&& e[0int] == link(h.slot, WEIGHT_DIRECT, h.pubkey@, key_at(d, 16))
            &&& e[1int] == link(h.slot, WEIGHT_DIRECT, h.pubkey@, key_at(d, 48))
            &&& e[1int + 1int] == link(h.slot, WEIGHT_DIRECT, h.pubkey@, key_at(d, 80))
            &&& e[1int + 1int + 1int] == link(h.slot, WEIGHT_DIRECT, h.pubkey@, key_at(d, 112))
            &&& e[1int + 1int + 1int + 1int] == link(h.slot, WEIGHT_DIRECT, h.pubkey@, key_at(d, 144))
        }),
{
    let d = data;
    let p0 = out_to(h, WEIGHT_DIRECT, key_at(d, 16));
    let p1 = out_to(h, WEIGHT_DIRECT, key_at(d, 48));
    let p2 = out_to(h, WEIGHT_DIRECT, key_at(d, 80));
    let p3 = out_to(h, WEIGHT_DIRECT, key_at(d, 112));
    let p4 = out_to(h, WEIGHT_DIRECT, key_at(d, 144));
    let s0 = p0;
    let s1 = s0 + p1;
    let s2 = s1 + p2;
    let s3 = s2 + p3;
    let s4 = s3 + p4;
    assert(infinity_edges(f, h, data) == s4);
    assert(s4[0int] == s3[0int]);
    assert(s3[0int] == s2[0int]);
    assert(s2[0int] == s1[0int]);
    assert(s1[0int] == s0[0int]);
    assert(s0[0int] == p0[0]);
    assert(s4[1int] == s3[1int]);
    assert(s3[1int] == s2[1int]);
    assert(s2[1int] == s1[1int]);
    assert(s1[1int] == p1[0]);
    assert(s4[1int + 1int] == s3[1int + 1int]);
    assert(s3[1int + 1int] == s2[1int + 1int]);
    assert(s2[1int + 1int] == p2[0]);
    assert(s4[1int + 1int + 1int] == s3[1int + 1int + 1int]);
    assert(s3[1int + 1int + 1int] == p3[0]);
    assert(s4[1int + 1int + 1int + 1int] == p4[0]);
}

/// An SPL token account that `Account::unpack` accepts and that the pool state
/// owns (a pool reserve, other than the three root accounts) is linked from
/// the pool state, then links to its mint; there is no other edge.
pub proof fn lemma_infinity_pool_reserve_links(f: Infinity, h: AccountHeader, data: Seq<u8>)
    requires
        h.pubkey@ != f.controller@,
        h.pubkey@ != f.pool_state@,
        h.pubkey@ != f.lst_list@,
        h.owner@ == token_program_key(),
        token_account_valid(data),
        key_at(data, 32) == f.pool_state@,
    ensures
        ({
            let e = infinity_edges(f, h, data);
            let d = data;
            &&& e.len() == 1int + 1int
            &&& e[0int] == link(h.slot, WEIGHT_DIRECT, f.pool_state@, h.pubkey@)
            &&& e[1int] == link(h.slot, WEIGHT_DIRECT, h.pubkey@, key_at(d, 0))
        }),
{
    let d = data;
    let p0 = in_from(h, WEIGHT_DIRECT, f.pool_state@);
    let p1 = out_to(h, WEIGHT_DIRECT, key_at(d, 0));
    let s0 = p0;
    let s1 = s0 + p1;
    assert(infinity_edges(f, h, data) == s1);
    assert(s1[0int] == s0[0int]);
    assert(s0[0int] == p0[0]);
    assert(s1[1int] == p1[0]);
}

/// Edge generator for the Sanctum Infinity controller program.
pub struct Infinity {
    pub program_id: Pubkey,
    /// The controller, root of the hierarchy.
    pub controller: Pubkey,
    /// The global pool state.
    pub pool_state: Pubkey,
    /// The global list of LSTs.
    pub lst_list: Pubkey,
}

impl Infinity {
    pub fn new(program_id: &Pubkey, controller: &Pubkey, pool_state: &Pubkey, lst_list: &Pubkey) -> (s: Self)
        ensures
            s.program_id == *program_id,
            s.controller == *controller,
            s.pool_state == *pool_state,
            s.lst_list == *lst_list,
    {
        Self {
            program_id: *program_id,
            controller: *controller,
            pool_state: *pool_state,
            lst_list: *lst_list,
        }
    }

    /// The programs whose accounts this filter reads.
    pub fn program_id_list(&self) -> (v: Vec<Pubkey>)
        ensures
            v@ == seq![self.program_id],
    {
        vec![self.program_id]
    }

    /// Whether `edge` can read this account data in full.
    pub fn readable(&self, header: &AccountHeader, data: &[u8]) -> (b: bool)
        ensures
            b == infinity_readable(*self, *header, data@),
    {
        header.pubkey.same(&self.controller) || !header.pubkey.same(&self.pool_state) || data.len()
            >= 176
    }

    /// Lists the edges that the account implies.
    pub fn edge(&self, header: &AccountHeader, data: &[u8]) -> (list: VecDeque<FilterEdge>)
        requires
            infinity_readable(*self, *header, data@),
        ensures
            edges_view(list@) == infinity_edges(*self, *header, data@),
    {
        let mut list: VecDeque<FilterEdge> = VecDeque::new();
        let id = header.pubkey;
        let pubkey_len: usize = 32;
        assert(edges_view(list@) =~= Seq::<EdgeView>::empty());
        // controller (root)
        if id.same(&self.controller) {
            push_link(&mut list, header.slot, WEIGHT_DIRECT, self.program_id, id);
            push_link(&mut list, header.slot, WEIGHT_DIRECT, id, self.pool_state);
            push_link(&mut list, header.slot, WEIGHT_DIRECT, id, self.lst_list);
            return list;
        }
        // pool state: skip u64 + u16 + u16 + 4 * u8
        if id.same(&self.pool_state) {
            let mut i: usize = 8 + 2 + 2 + 4;
            // admin
            push_out(&mut list, header, WEIGHT_DIRECT, data, i);
            i += pubkey_len;
            // rebalance authority
            push_out(&mut list, header, WEIGHT_DIRECT, data, i);
            i += pubkey_len;
            // protocol fee beneficiary
            push_out(&mut list, header, WEIGHT_DIRECT, data, i);
            i += pubkey_len;
            // pricing program
            push_out(&mut list, header, WEIGHT_DIRECT, data, i);
            i += pubkey_len;
            // LP token mint
            push_out(&mut list, header, WEIGHT_DIRECT, data, i);
            return list;
        }
        // LST list: every whole 80-byte entry (16 bytes of flags, the mint,
        // the calculator)
        if id.same(&self.lst_list) {
            let ghost before = edges_view(list@);
            let mut k: usize = 0;
            let mut off: usize = 0;
            assert(before =~= before + lst_entry_links(*header, data@, 0));
            while LST_ENTRY_SIZE <= data.len() - off
                invariant
                    off == LST_ENTRY_SIZE * k,
                    off <= data.len(),
                    id == header.pubkey,
                    edges_view(list@) == before + lst_entry_links(*header, data@, k as nat),
                decreases data.len() - off,
            {
                let mint = Pubkey::read_at(data, off + 16);
                let calculator = Pubkey::read_at(data, off + 48);
                // LST list -> mint
                push_link(&mut list, header.slot, WEIGHT_DIRECT, id, mint);
                // mint -> calculator
                push_link(&mut list, header.slot, WEIGHT_DIRECT, mint, calculator);
                k = k + 1;
                off = off + LST_ENTRY_SIZE;
                assert(edges_view(list@) =~= before + lst_entry_links(*header, data@, k as nat));
            }
            assert(k == data.len() / LST_ENTRY_SIZE) by (nonlinear_arith)
                requires
                    off == 80 * k,
                    off <= data.len(),
                    data.len() < off + 80,
            ;
            return list;
        }
        // pool reserves: SPL token accounts owned by the pool state
        let token_id = token_program_id();
        if header.owner.same(&token_id) {
            if let Some((mint, owner)) = unpack_token_account(data) {
                if owner.same(&self.pool_state) {
                    // pool state -> reserve vault
                    push_link(&mut list, header.slot, WEIGHT_DIRECT, self.pool_state, id);
                    // reserve vault -> mint
                    push_link(&mut list, header.slot, WEIGHT_DIRECT, id, mint);
                }
            }
        }
        list
    }
}

} // verus!
