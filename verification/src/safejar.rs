//! Filter for the Safejar program.
use std::collections::VecDeque;
use vstd::prelude::*;

use crate::primitive::common::{has_discriminator, match_discriminator};
use crate::primitive::header::AccountHeader;
use crate::primitive::provenance::{edges_avoid_system, edges_sound, group_avoids, group_sound};
use crate::primitive::pubkey::{key_at, zero_key, Pubkey};
use crate::primitive::tree::{
    edges_view, in_from, link, in_unless_system, out_unless_system, push_in_unless_system, push_link,
    push_out_unless_system, EdgeView, FilterEdge, WEIGHT_DIRECT, WEIGHT_PROGRAM,
};

verus! {

/// Discriminator of the `Controller` account.
pub open spec fn controller_disc() -> Seq<u8> {
    seq![184u8, 79, 171, 0, 183, 43, 113, 110]
}

/// Discriminator of the `Delegation` account.
pub open spec fn delegation_disc() -> Seq<u8> {
    seq![237u8, 90, 140, 159, 124, 255, 243, 80]
}

/// Discriminator of the `RuleAccumulator` account.
pub open spec fn ruleaccumulator_disc() -> Seq<u8> {
    seq![127u8, 132, 189, 170, 68, 38, 206, 135]
}

/// Discriminator of the `SpendRequest` account.
pub open spec fn spendrequest_disc() -> Seq<u8> {
    seq![71u8, 251, 215, 71, 98, 153, 90, 25]
}

/// The edges of a Safejar account, skipping system-program addresses:
/// a controller is linked from the program and links to its owner (offset 9);
/// a delegation is linked from its controller (offset 9).
pub open spec fn safejar_edges(program_id: Seq<u8>, h: AccountHeader, data: Seq<u8>) -> Seq<EdgeView> {
    if has_discriminator(controller_disc(), data) {
        in_from(h, WEIGHT_PROGRAM, program_id) + out_unless_system(h, WEIGHT_DIRECT, data, 9)
    } else if has_discriminator(delegation_disc(), data) {
        in_unless_system(h, WEIGHT_DIRECT, data, 9)
    } else {
        seq![]
    }
}

/// The account data that the filter can read in full: a controller or a
/// delegation holds at least 41 bytes.
pub open spec fn safejar_readable(data: Seq<u8>) -> bool {
    (has_discriminator(controller_disc(), data) || has_discriminator(delegation_disc(), data))
        ==> data.len() >= 41
}

/// Every edge of a readable Safejar account is at the account's slot, touches the
/// account, and links it to the program or to an address stored in its data.
/// No end of an edge that is read from the data is the system program.
pub proof fn lemma_safejar_edges_sound(program_id: Seq<u8>, h: AccountHeader, data: Seq<u8>)
    requires
        safejar_readable(data),
    ensures
        edges_sound(safejar_edges(program_id, h, data), h, data, set![program_id]),
        edges_avoid_system(safejar_edges(program_id, h, data), h, set![program_id]),
{
    broadcast use group_sound, group_avoids;

    assert(set![program_id].contains(program_id));
}

/// The data of an account matches at most one of the program's discriminators,
/// so the order in which the filter tests them does not change its edges.
pub proof fn lemma_safejar_kinds_exclusive(data: Seq<u8>)
    ensures
        (if has_discriminator(controller_disc(), data) { 1int } else { 0 })
            + (if has_discriminator(delegation_disc(), data) { 1int } else { 0 })
            + (if has_discriminator(ruleaccumulator_disc(), data) { 1int } else { 0 })
            + (if has_discriminator(spendrequest_disc(), data) { 1int } else { 0 }) <= 1,
{
    if data.len() >= 8 {
        assert(data.subrange(0, 8)[0] == data[0]);
    }
}

/// A Safejar controller is linked from the program, then links to the address
/// at offset 9 unless that is the system program; there is no other edge.
pub proof fn lemma_safejar_controller_links(program_id: Seq<u8>, h: AccountHeader, data: Seq<u8>)
    requires
        has_discriminator(controller_disc(), data),
    ensures
        ({
            let e = safejar_edges(program_id, h, data);
            let d = data;
            &&& e.len() == 1int + (if key_at(d, 9) != zero_key() { 1int } else { 0 })
            &&& e[0int] == link(h.slot, WEIGHT_PROGRAM, program_id, h.pubkey@)
            &&& key_at(d, 9) != zero_key() ==> e[1int] == link(h.slot, WEIGHT_DIRECT, h.pubkey@, key_at(d, 9))
        }),
{
    let d = data;
    let p0 = in_from(h, WEIGHT_PROGRAM, program_id);
    let p1 = out_unless_system(h, WEIGHT_DIRECT, d, 9);
    let s0 = p0;
    let s1 = s0 + p1;
    assert(safejar_edges(program_id, h, data) == s1);
    assert(s1[0int] == s0[0int]);
    assert(s0[0int] == p0[0]);
    if key_at(d, 9) != zero_key() {
        assert(s1[1int] == p1[0]);
    }
}

/// A Safejar delegation is linked from the address at offset 9 unless that is
/// the system program; there is no other edge.
pub proof fn lemma_safejar_delegation_links(program_id: Seq<u8>, h: AccountHeader, data: Seq<u8>)
    requires
        has_discriminator(delegation_disc(), data),
    ensures
        ({
            let e = safejar_edges(program_id, h, data);
            let d = data;
            &&& e.len() == (if key_at(d, 9) != zero_key() { 1int } else { 0 })
            &&& key_at(d, 9) != zero_key() ==> e[0int] == link(h.slot, WEIGHT_DIRECT, key_at(d, 9), h.pubkey@)
        }),
{
    lemma_safejar_kinds_exclusive(data);
    let d = data;
    let p0 = in_unless_system(h, WEIGHT_DIRECT, d, 9);
    let s0 = p0;
    assert(safejar_edges(program_id, h, data) == s0);
    if key_at(d, 9) != zero_key() {
        assert(s0[0int] == p0[0]);
    }
}

/// Edge generator for accounts of the Safejar program.
pub struct Safejar {
    d_controller: [u8; 8],
    d_delegation: [u8; 8],
    pub program_id: Pubkey,
}

impl Safejar {
    /// The filter holds the discriminators of the program.
    pub closed spec fn wf(&self) -> bool {
        &&& self.d_controller@ == controller_disc()
        &&& self.d_delegation@ == delegation_disc()
    }

    /// The address of the program that the filter serves.
    pub closed spec fn program(&self) -> Seq<u8> {
        self.program_id@
    }

    pub fn new(program_id: &Pubkey) -> (s: Self)
        ensures
            s.wf(),
            s.program() == program_id@,
    {
        let d_controller = controller_discriminator();
        let d_delegation = delegation_discriminator();
        Self { program_id: *program_id, d_controller, d_delegation }
    }

    /// The programs whose accounts this filter reads.
    pub fn program_id_list(&self) -> (v: Vec<Pubkey>)
        ensures
            v@.len() == 1,
            v@[0]@ == self.program(),
    {
        vec![self.program_id]
    }

    /// Whether `edge` can read this account data in full.
    pub fn readable(&self, data: &[u8]) -> (b: bool)
        requires
            self.wf(),
        ensures
            b == safejar_readable(data@),
    {
        !(match_discriminator(&self.d_controller, data) || match_discriminator(&self.d_delegation, data))
            || data.len() >= 41
    }

    /// Lists the edges that the account implies.
    pub fn edge(&self, header: &AccountHeader, data: &[u8]) -> (list: VecDeque<FilterEdge>)
        requires
            self.wf(),
            safejar_readable(data@),
        ensures
            edges_view(list@) == safejar_edges(self.program(), *header, data@),
    {
        let mut list: VecDeque<FilterEdge> = VecDeque::new();
        let id = header.pubkey;
        let prefix = self.d_controller.len();
        assert(edges_view(list@) =~= Seq::<EdgeView>::empty());
        if match_discriminator(&self.d_controller, data) {
            // program -> controller
            push_link(&mut list, header.slot, WEIGHT_PROGRAM, self.program_id, id);
            // controller -> owner
            push_out_unless_system(&mut list, header, WEIGHT_DIRECT, data, prefix + 1);
        } else if match_discriminator(&self.d_delegation, data) {
            // controller -> delegation
            push_in_unless_system(&mut list, header, WEIGHT_DIRECT, data, prefix + 1);
        }
        list
    }
}

/// Discriminator of the `Controller` account.
pub fn controller_discriminator() -> (d: [u8; 8])
    ensures
        d@ == controller_disc(),
{
    let d = [184, 79, 171, 0, 183, 43, 113, 110];
    assert(d@ =~= controller_disc());
    d
}

/// Discriminator of the `Delegation` account.
pub fn delegation_discriminator() -> (d: [u8; 8])
    ensures
        d@ == delegation_disc(),
{
    let d = [237, 90, 140, 159, 124, 255, 243, 80];
    assert(d@ =~= delegation_disc());
    d
}

/// Discriminator of the `RuleAccumulator` account.
pub fn ruleaccumulator_discriminator() -> (d: [u8; 8])
    ensures
        d@ == ruleaccumulator_disc(),
{
    let d = [127, 132, 189, 170, 68, 38, 206, 135];
    assert(d@ =~= ruleaccumulator_disc());
    d
}

/// Discriminator of the `SpendRequest` account.
pub fn spendrequest_discriminator() -> (d: [u8; 8])
    ensures
        d@ == spendrequest_disc(),
{
    let d = [71, 251, 215, 71, 98, 153, 90, 25];
    assert(d@ =~= spendrequest_disc());
    d
}

} // verus!
