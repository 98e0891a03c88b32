//! Filter for system, SPL Token and BPF loader accounts.
use std::collections::VecDeque;
use vstd::prelude::*;

use super::header::AccountHeader;
use super::provenance::{edges_sound, group_sound};
use super::pubkey::{key_at, Pubkey};
use super::solana::{
    bpf_loader_id, bpf_loader_key, system_program_id, system_program_key,
    token_program_id, token_program_key,
};
use super::tree::{
    edges_view, in_from, link, push_in, EdgeView, FilterEdge, WEIGHT_PROGRAM, WEIGHT_SPLTOKEN_MINT,
    WEIGHT_SPLTOKEN_OWNER,
};

verus! {

/// Whether the packed `COption` tag at `off` is `Some`: bytes 1, 0, 0, 0.
pub open spec fn tag_is_some(data: Seq<u8>, off: int) -> bool {
    data[off] == 1 && data[off + 1] == 0 && data[off + 2] == 0 && data[off + 3] == 0
}

/// The edges of an account, by its owner:
/// - system accounts give none;
/// - a token account (165 to 176 bytes) is linked from its mint (bytes 0..32)
///   and from its owner (bytes 32..64);
/// - otherwise, data of the packed length of an SPL Token mint (82 bytes) is
///   read as a mint, linked from its mint authority (bytes 4..36) and
///   its freeze authority (bytes 50..82), each where its option tag (at 0 and
///   at 46) is `Some`.
pub open spec fn soltoken_edges(h: AccountHeader, data: Seq<u8>) -> Seq<EdgeView> {
    if h.owner@ == system_program_key() {
        seq![]
    } else if h.owner@ == token_program_key() {
        if 165 <= data.len() && data.len() <= 176 {
            in_from(h, WEIGHT_SPLTOKEN_MINT, key_at(data, 0)) + in_from(
                h,
                WEIGHT_SPLTOKEN_OWNER,
                key_at(data, 32),
            )
        } else if data.len() == PACKED_MINT_LEN {
            (if tag_is_some(data, 0) {
                in_from(h, WEIGHT_PROGRAM, key_at(data, 4))
            } else {
                seq![]
            }) + if tag_is_some(data, 46) {
                in_from(h, WEIGHT_PROGRAM, key_at(data, 50))
            } else {
                seq![]
            }
        } else {
            seq![]
        }
    } else {
        seq![]
    }
}

/// The packed length of an SPL Token mint account (`Mint::LEN`).
pub const PACKED_MINT_LEN: usize = 82;

/// Every edge of an account is at the account's slot, comes into the account,
/// and comes from an address stored in its data.
pub proof fn lemma_soltoken_edges_sound(h: AccountHeader, data: Seq<u8>)
    ensures
        edges_sound(soltoken_edges(h, data), h, data, Set::empty()),
        forall|i: int|
            0 <= i < soltoken_edges(h, data).len() ==> (#[trigger] soltoken_edges(h, data)[i]).to
                == h.pubkey@,
{
    broadcast use group_sound;

}

/// A packed mint owned by the SPL Token program is linked from each of its two
/// authorities that is set, independently of the other: from the mint
/// authority (bytes 4..36) when its tag (bytes 0..4) is 1, 0, 0, 0, then from
/// the freeze authority (bytes 50..82) when its tag (bytes 46..50) is
/// 1, 0, 0, 0; nothing else.
pub proof fn lemma_soltoken_mint_authorities(h: AccountHeader, data: Seq<u8>)
    requires
        h.owner@ == token_program_key(),
        data.len() == 82,
    ensures
        ({
            let e = soltoken_edges(h, data);
            let mint_set = data[0] == 1 && data[1] == 0 && data[2] == 0 && data[3] == 0;
            let freeze_set = data[46] == 1 && data[47] == 0 && data[48] == 0 && data[49] == 0;
            &&& e.len() == (if mint_set { 1int } else { 0 }) + (if freeze_set { 1int } else { 0 })
            &&& mint_set ==> e[0] == link(h.slot, WEIGHT_PROGRAM, data.subrange(4, 36), h.pubkey@)
            &&& freeze_set ==> e[e.len() - 1] == link(
                h.slot,
                WEIGHT_PROGRAM,
                data.subrange(50, 82),
                h.pubkey@,
            )
        }),
{
    assert(token_program_key()[0] != system_program_key()[0]);
}

/// A token account (165 to 176 bytes) owned by the SPL Token program is linked
/// from its mint (bytes 0..32) and then from its owner (bytes 32..64), and
/// from nothing else.
pub proof fn lemma_soltoken_token_account(h: AccountHeader, data: Seq<u8>)
    requires
        h.owner@ == token_program_key(),
        165 <= data.len() <= 176,
    ensures
        soltoken_edges(h, data) == seq![
            link(h.slot, WEIGHT_SPLTOKEN_MINT, data.subrange(0, 32), h.pubkey@),
            link(h.slot, WEIGHT_SPLTOKEN_OWNER, data.subrange(32, 64), h.pubkey@),
        ],
{
    assert(token_program_key()[0] != system_program_key()[0]);
    assert(soltoken_edges(h, data) =~= seq![
        link(h.slot, WEIGHT_SPLTOKEN_MINT, data.subrange(0, 32), h.pubkey@),
        link(h.slot, WEIGHT_SPLTOKEN_OWNER, data.subrange(32, 64), h.pubkey@),
    ]);
}

/// Edge generator for accounts of the system program, the SPL Token program
/// and the BPF loader.
pub struct SolToken {
    program_id: [Pubkey; 3],
}

impl SolToken {
    /// The three programs: system, SPL Token, BPF loader.
    pub closed spec fn programs(&self) -> Seq<Seq<u8>> {
        seq![self.program_id[0]@, self.program_id[1]@, self.program_id[2]@]
    }

    /// The programs whose accounts this filter reads.
    pub fn program_id_list(&self) -> (v: Vec<Pubkey>)
        ensures
            v@.len() == 3,
            forall|i: int| 0 <= i < 3 ==> v@[i]@ == #[trigger] self.programs()[i],
    {
        let mut v: Vec<Pubkey> = Vec::new();
        v.push(self.program_id[0]);
        v.push(self.program_id[1]);
        v.push(self.program_id[2]);
        v
    }

    /// Lists the edges that the account implies.
    pub fn edge(&self, header: &AccountHeader, data: &[u8]) -> (list: VecDeque<FilterEdge>)
        ensures
            edges_view(list@) == soltoken_edges(*header, data@),
    {
        let mut list: VecDeque<FilterEdge> = VecDeque::new();
        let pubkey_len: usize = 32;
        let system_id = system_program_id();
        let token_id = token_program_id();
        assert(edges_view(list@) =~= Seq::<EdgeView>::empty());
        if header.owner.same(&system_id) {
            // nothing to do: system accounts get no edge
        } else if header.owner.same(&token_id) {
            if 165 <= data.len() && data.len() <= 176 {
                // both edges come into the token account
                // mint -> token account
                push_in(&mut list, header, WEIGHT_SPLTOKEN_MINT, data, 0);
                // owner -> token account
                push_in(&mut list, header, WEIGHT_SPLTOKEN_OWNER, data, pubkey_len);
            } else if data.len() == PACKED_MINT_LEN {
                // mint authority: COption<Pubkey> at offset 0 (4-byte tag, 32-byte address)
                if data[0] == 1 && data[1] == 0 && data[2] == 0 && data[3] == 0 {
                    push_in(&mut list, header, WEIGHT_PROGRAM, data, 4);
                } else {
                    assert(edges_view(list@) =~= edges_view(list@) + Seq::<EdgeView>::empty());
                }
                // freeze authority: COption<Pubkey> at offset 46 (4-byte tag, 32-byte address)
                if data[46] == 1 && data[47] == 0 && data[48] == 0 && data[49] == 0 {
                    push_in(&mut list, header, WEIGHT_PROGRAM, data, 50);
                } else {
                    assert(edges_view(list@) =~= edges_view(list@) + Seq::<EdgeView>::empty());
                }
            }
        }
        list
    }
}

impl Default for SolToken {
    fn default() -> (s: Self)
        ensures
            s.programs() == seq![system_program_key(), token_program_key(), bpf_loader_key()],
    {
        let s = Self {
            program_id: [system_program_id(), token_program_id(), bpf_loader_id()],
        };
        assert(s.programs() =~= seq![system_program_key(), token_program_key(), bpf_loader_key()]);
        s
    }
}

} // verus!
