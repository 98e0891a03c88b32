//! Filter for the Kamino vault (kvault) program.
//!
//! `GlobalConfig` stores the global admin at offset 8. `VaultState` stores the
//! token vault at offset 120 and, from offset 312, 25 allocations of 2160 bytes,
//! each with its ctoken vault 32 bytes in.
use std::collections::VecDeque;
use vstd::prelude::*;

use crate::primitive::common::{has_discriminator, match_discriminator};
use crate::primitive::header::AccountHeader;
use crate::primitive::provenance::{edges_avoid_system, edges_sound, group_avoids, group_sound};
use crate::primitive::pubkey::{key_at, zero_key, Pubkey};
use crate::primitive::tree::{
    edges_view, in_from, link, out_unless_system, push_link,
    push_out_unless_system, EdgeView, FilterEdge, WEIGHT_DIRECT,
};

verus! {

/// Size of one allocation of a vault.
pub const VAULT_ALLOCATION_SIZE: usize = 2160;

/// Offset of the allocation array in a vault state.
pub const ALLOCATION_ARRAY_OFFSET: usize = 312;

/// Number of allocations of a vault.
pub const NUM_ALLOCATIONS: usize = 25;

/// Discriminator of the `GlobalConfig` account: sha256("account:GlobalConfig")[..8].
pub open spec fn global_config_disc() -> Seq<u8> {
    seq![149u8, 8, 156, 202, 160, 252, 176, 217]
}

/// Discriminator of the `VaultState` account: sha256("account:VaultState")[..8].
pub open spec fn vault_state_disc() -> Seq<u8> {
    seq![228u8, 196, 82, 165, 98, 210, 235, 152]
}

/// Discriminator of the `ReserveWhitelistEntry` account: sha256("account:ReserveWhitelistEntry")[..8].
pub open spec fn reserve_whitelist_entry_disc() -> Seq<u8> {
    seq![135u8, 130, 156, 210, 58, 58, 91, 170]
}

/// An edge from the account to the address at `off`, where the data holds it
/// and it is not the system program.
pub open spec fn out_if_present(h: AccountHeader, data: Seq<u8>, off: int) -> Seq<EdgeView> {
    if data.len() >= off + 32 {
        out_unless_system(h, WEIGHT_DIRECT, data, off)
    } else {
        seq![]
    }
}

/// Offset of the ctoken vault of allocation `n`.
pub open spec fn ctoken_vault_offset(n: int) -> int {
    ALLOCATION_ARRAY_OFFSET + n * VAULT_ALLOCATION_SIZE + 32
}

/// For the first `n` allocations, the edge to their ctoken vault, where present.
pub open spec fn allocation_links(h: AccountHeader, data: Seq<u8>, n: nat) -> Seq<EdgeView>
    decreases n,
{
    if n == 0 {
        seq![]
    } else {
        allocation_links(h, data, (n - 1) as nat) + out_if_present(h, data, ctoken_vault_offset(n - 1))
    }
}

/// The edges of a kvault account, skipping system-program addresses and
/// addresses that lie past the end of the data:
/// - the global config is linked from the program and links to the global admin;
/// - a vault state is linked from the program and links to its token vault
///   and to the ctoken vault of each of its 25 allocations;
/// - a reserve whitelist entry is linked from the program.
pub open spec fn kvault_edges(program_id: Seq<u8>, h: AccountHeader, data: Seq<u8>) -> Seq<EdgeView> {
    if has_discriminator(global_config_disc(), data) {
        in_from(h, WEIGHT_DIRECT, program_id) + out_if_present(h, data, 8)
    } else if has_discriminator(vault_state_disc(), data) {
        in_from(h, WEIGHT_DIRECT, program_id) + out_if_present(h, data, 120) + allocation_links(
            h,
            data,
            NUM_ALLOCATIONS as nat,
        )
    } else if has_discriminator(reserve_whitelist_entry_disc(), data) {
        in_from(h, WEIGHT_DIRECT, program_id)
    } else {
        seq![]
    }
}

proof fn lemma_allocation_links_sound(h: AccountHeader, data: Seq<u8>, n: nat, cfg: Set<Seq<u8>>)
    ensures
        edges_sound(allocation_links(h, data, n), h, data, cfg),
    decreases n,
{
    broadcast use group_sound;

    if n > 0 {
        lemma_allocation_links_sound(h, data, (n - 1) as nat, cfg);
        assert(ctoken_vault_offset(n - 1) >= 0) by (nonlinear_arith)
            requires
                n > 0,
        ;
    }
}

proof fn lemma_allocation_links_avoid(h: AccountHeader, data: Seq<u8>, n: nat, cfg: Set<Seq<u8>>)
    ensures
        edges_avoid_system(allocation_links(h, data, n), h, cfg),
    decreases n,
{
    broadcast use group_avoids;

    if n > 0 {
        lemma_allocation_links_avoid(h, data, (n - 1) as nat, cfg);
    }
}

/// Every edge of a kvault account is at the account's slot, touches the
/// account, and links it to the program or to an address stored in its data.
/// No end of an edge that is read from the data is the system program.
pub proof fn lemma_kvault_edges_sound(program_id: Seq<u8>, h: AccountHeader, data: Seq<u8>)
    ensures
        edges_sound(kvault_edges(program_id, h, data), h, data, set![program_id]),
        edges_avoid_system(kvault_edges(program_id, h, data), h, set![program_id]),
{
    broadcast use group_sound, group_avoids;

    assert(set![program_id].contains(program_id));
    lemma_allocation_links_sound(h, data, NUM_ALLOCATIONS as nat, set![program_id]);
    lemma_allocation_links_avoid(h, data, NUM_ALLOCATIONS as nat, set![program_id]);
}

/// Whether the ctoken vault of allocation `m` (the 32 bytes at
/// `312 + 2160 * m + 32`) lies in the data and is not the system program.
pub open spec fn ctoken_vault_listed(data: Seq<u8>, m: int) -> bool {
    data.len() >= 312 + 2160 * m + 64 && key_at(data, 312 + 2160 * m + 32) != zero_key()
}

/// The number of allocations before `m` whose ctoken vault is listed.
pub open spec fn listed_before(data: Seq<u8>, m: nat) -> nat
    decreases m,
{
    if m == 0 {
        0
    } else {
        listed_before(data, (m - 1) as nat) + if ctoken_vault_listed(data, m - 1) {
            1nat
        } else {
            0nat
        }
    }
}

proof fn lemma_listed_before_monotone(data: Seq<u8>, a: nat, b: nat)
    requires
        a <= b,
    ensures
        listed_before(data, a) <= listed_before(data, b),
    decreases b,
{
    if a < b {
        lemma_listed_before_monotone(data, a, (b - 1) as nat);
    }
}

proof fn lemma_allocation_links_every_vault(h: AccountHeader, data: Seq<u8>, n: nat)
    ensures
        allocation_links(h, data, n).len() == listed_before(data, n),
        forall|m: int|
            0 <= m < n && ctoken_vault_listed(data, m) ==> #[trigger] allocation_links(h, data, n)[listed_before(
                data,
                m as nat,
            ) as int] == link(h.slot, WEIGHT_DIRECT, h.pubkey@, key_at(data, 312 + 2160 * m + 32)),
    decreases n,
{
    if n > 0 {
        let p = (n - 1) as nat;
        lemma_allocation_links_every_vault(h, data, p);
        let a = allocation_links(h, data, p);
        let b = out_if_present(h, data, ctoken_vault_offset(p as int));
        assert(ctoken_vault_offset(p as int) == 312 + 2160 * p + 32);
        assert(allocation_links(h, data, n) == a + b);
        assert forall|m: int| 0 <= m < n && ctoken_vault_listed(data, m) implies #[trigger] (a + b)[listed_before(
            data,
            m as nat,
        ) as int] == link(h.slot, WEIGHT_DIRECT, h.pubkey@, key_at(data, 312 + 2160 * m + 32)) by {
            if m < p {
                lemma_listed_before_monotone(data, (m + 1) as nat, p);
                assert(listed_before(data, (m + 1) as nat) == listed_before(data, m as nat) + 1);
                assert((a + b)[listed_before(data, m as nat) as int] == a[listed_before(data, m as nat) as int]);
            } else {
                assert((a + b)[listed_before(data, m as nat) as int] == b[0]);
            }
        }
    }
}

/// A vault state is linked from the program, then links to its token vault
/// (offset 120) where that is stored and not the system program, then to the
/// ctoken vault of every one of its 25 allocations that is stored and not the
/// system program, in order, and to nothing else: the `m`-th listed allocation
/// edge goes from the account to the 32 bytes at `312 + 2160 * m + 32`.
pub proof fn lemma_kvault_vault_state_links_every_allocation(program_id: Seq<u8>, h: AccountHeader, data: Seq<u8>)
    requires
        has_discriminator(vault_state_disc(), data),
    ensures
        ({
            let e = kvault_edges(program_id, h, data);
            let t: int = if data.len() >= 152 && key_at(data, 120) != zero_key() { 1 } else { 0 };
            &&& e.len() == 1 + t + listed_before(data, 25)
            &&& e[0] == link(h.slot, WEIGHT_DIRECT, program_id, h.pubkey@)
            &&& t == 1 ==> e[1] == link(h.slot, WEIGHT_DIRECT, h.pubkey@, key_at(data, 120))
            &&& forall|m: int|
                0 <= m < 25 && ctoken_vault_listed(data, m) ==> #[trigger] e[1 + t + listed_before(
                    data,
                    m as nat,
                )] == link(h.slot, WEIGHT_DIRECT, h.pubkey@, key_at(data, 312 + 2160 * m + 32))
        }),
{
    lemma_kvault_kinds_exclusive(data);
    lemma_allocation_links_every_vault(h, data, 25);
    let a = in_from(h, WEIGHT_DIRECT, program_id);
    let b = out_if_present(h, data, 120);
    let c = allocation_links(h, data, 25);
    let t: int = if data.len() >= 152 && key_at(data, 120) != zero_key() { 1 } else { 0 };
    assert(kvault_edges(program_id, h, data) == a + b + c);
    assert(b.len() == t);
    assert forall|m: int| 0 <= m < 25 && ctoken_vault_listed(data, m) implies #[trigger] (a + b + c)[1 + t
        + listed_before(data, m as nat)] == link(
        h.slot,
        WEIGHT_DIRECT,
        h.pubkey@,
        key_at(data, 312 + 2160 * m + 32),
    ) by {
        lemma_listed_before_monotone(data, (m + 1) as nat, 25);
        assert(listed_before(data, (m + 1) as nat) == listed_before(data, m as nat) + 1);
        assert((a + b + c)[1 + t + listed_before(data, m as nat)] == c[listed_before(data, m as nat) as int]);
        assert(c[listed_before(data, m as nat) as int] == link(
            h.slot,
            WEIGHT_DIRECT,
            h.pubkey@,
            key_at(data, 312 + 2160 * m + 32),
        ));
    }
}

/// The kvault global config is linked from the program, then links to its
/// global admin (offset 8) where the data holds it and it is not the system
/// program; there is no other edge.
pub proof fn lemma_kvault_global_config_links(program_id: Seq<u8>, h: AccountHeader, data: Seq<u8>)
    requires
        has_discriminator(global_config_disc(), data),
        data.len() >= 40,
    ensures
        ({
            let e = kvault_edges(program_id, h, data);
            let d = data;
            &&& e.len() == 1int + (if key_at(d, 8) != zero_key() { 1int } else { 0 })
            &&& e[0int] == link(h.slot, WEIGHT_DIRECT, program_id, h.pubkey@)
            &&& key_at(d, 8) != zero_key() ==> e[1int] == link(h.slot, WEIGHT_DIRECT, h.pubkey@, key_at(d, 8))
        }),
{
    let d = data;
    let p0 = in_from(h, WEIGHT_DIRECT, program_id);
    let p1 = out_unless_system(h, WEIGHT_DIRECT, d, 8);
    let s0 = p0;
    let s1 = s0 + p1;
    assert(kvault_edges(program_id, h, data) == s1);
    assert(s1[0int] == s0[0int]);
    assert(s0[0int] == p0[0]);
    if key_at(d, 8) != zero_key() {
        assert(s1[1int] == p1[0]);
    }
}

/// The data of an account matches at most one of the program's discriminators,
/// so the order in which the filter tests them does not change its edges.
pub proof fn lemma_kvault_kinds_exclusive(data: Seq<u8>)
    ensures
        (if has_discriminator(global_config_disc(), data) { 1int } else { 0 })
            + (if has_discriminator(vault_state_disc(), data) { 1int } else { 0 })
            + (if has_discriminator(reserve_whitelist_entry_disc(), data) { 1int } else { 0 }) <= 1,
{
    if data.len() >= 8 {
        assert(data.subrange(0, 8)[0] == data[0]);
    }
}

/// Edge generator for accounts of the Kamino vault program.
pub struct Kvault {
    d_global_config: [u8; 8],
    d_vault_state: [u8; 8],
    d_reserve_whitelist_entry: [u8; 8],
    pub program_id: Pubkey,
}

impl Kvault {
    /// The filter holds the discriminators of the program.
    pub closed spec fn wf(&self) -> bool {
        &&& self.d_global_config@ == global_config_disc()
        &&& self.d_vault_state@ == vault_state_disc()
        &&& self.d_reserve_whitelist_entry@ == reserve_whitelist_entry_disc()
    }

    /// The address of the program that the filter serves.
    pub closed spec fn program(&self) -> Seq<u8> {
        self.program_id@
    }

    pub fn new(program_id: &Pubkey) -> (s: Self)
        ensures
            s.wf(),
            s.program() == program_id@,
    {
        Self {
            program_id: *program_id,
            d_global_config: global_config_discriminator(),
            d_vault_state: vault_state_discriminator(),
            d_reserve_whitelist_entry: reserve_whitelist_entry_discriminator(),
        }
    }

    /// The programs whose accounts this filter reads.
    pub fn program_id_list(&self) -> (v: Vec<Pubkey>)
        ensures
            v@.len() == 1,
            v@[0]@ == self.program(),
    {
        vec![self.program_id]
    }

    /// Lists the edges that the account implies.
    pub fn edge(&self, header: &AccountHeader, data: &[u8]) -> (list: VecDeque<FilterEdge>)
        requires
            self.wf(),
        ensures
            edges_view(list@) == kvault_edges(self.program(), *header, data@),
    {
        let mut list: VecDeque<FilterEdge> = VecDeque::new();
        let id = header.pubkey;
        let pubkey_len: usize = 32;
        assert(edges_view(list@) =~= Seq::<EdgeView>::empty());
        if match_discriminator(&self.d_global_config, data) {
            // program -> global config
            push_link(&mut list, header.slot, WEIGHT_DIRECT, self.program_id, id);
            // global config -> global admin
            let i: usize = 8;
            if data.len() >= i + pubkey_len {
                push_out_unless_system(&mut list, header, WEIGHT_DIRECT, data, i);
            }
        } else if match_discriminator(&self.d_vault_state, data) {
            // program -> vault state
            push_link(&mut list, header.slot, WEIGHT_DIRECT, self.program_id, id);
            // vault state -> token vault; the admin, base vault authority, token
            // mint, token program and shares mint are skipped
            let i: usize = 120;
            if data.len() >= i + pubkey_len {
                push_out_unless_system(&mut list, header, WEIGHT_DIRECT, data, i);
            }
            // vault state -> ctoken vault of each allocation
            let ghost before = edges_view(list@);
            let mut n: usize = 0;
            assert(before =~= before + allocation_links(*header, data@, 0));
            while n < NUM_ALLOCATIONS
                invariant
                    n <= NUM_ALLOCATIONS,
                    pubkey_len == 32,
                    edges_view(list@) == before + allocation_links(*header, data@, n as nat),
                decreases NUM_ALLOCATIONS - n,
            {
                let i = ALLOCATION_ARRAY_OFFSET + n * VAULT_ALLOCATION_SIZE + 32;
                if data.len() >= i + pubkey_len {
                    push_out_unless_system(&mut list, header, WEIGHT_DIRECT, data, i);
                }
                n += 1;
                assert(edges_view(list@) =~= before + allocation_links(*header, data@, n as nat));
            }
        } else if match_discriminator(&self.d_reserve_whitelist_entry, data) {
            // program -> reserve whitelist entry
            push_link(&mut list, header.slot, WEIGHT_DIRECT, self.program_id, id);
        }
        list
    }
}

/// Discriminator of the `GlobalConfig` account: sha256("account:GlobalConfig")[..8].
pub fn global_config_discriminator() -> (d: [u8; 8])
    ensures
        d@ == global_config_disc(),
{
    let d = [149, 8, 156, 202, 160, 252, 176, 217];
    assert(d@ =~= global_config_disc());
    d
}

/// Discriminator of the `VaultState` account: sha256("account:VaultState")[..8].
pub fn vault_state_discriminator() -> (d: [u8; 8])
    ensures
        d@ == vault_state_disc(),
{
    let d = [228, 196, 82, 165, 98, 210, 235, 152];
    assert(d@ =~= vault_state_disc());
    d
}

/// Discriminator of the `ReserveWhitelistEntry` account: sha256("account:ReserveWhitelistEntry")[..8].
pub fn reserve_whitelist_entry_discriminator() -> (d: [u8; 8])
    ensures
        d@ == reserve_whitelist_entry_disc(),
{
    let d = [135, 130, 156, 210, 58, 58, 91, 170];
    assert(d@ =~= reserve_whitelist_entry_disc());
    d
}

} // verus!
