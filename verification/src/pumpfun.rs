//! Filter for the Pump.fun bonding curve program.
use std::collections::VecDeque;
use vstd::prelude::*;

use crate::primitive::common::{has_discriminator, match_discriminator};
use crate::primitive::header::AccountHeader;
use crate::primitive::provenance::{edges_avoid_system, edges_sound, group_avoids, group_sound};
use crate::primitive::pubkey::Pubkey;
use crate::primitive::solana::{derived_address, find_program_address};
use crate::primitive::tree::{edges_view, in_from, link, push_link, EdgeView, FilterEdge, WEIGHT_DIRECT};

verus! {

/// The Pump.fun program on mainnet, "6EF8rrecthR5Dkzon8Nwu78hRvfCKubJ14M5uBEwF6P".
pub const PUMPFUN_PROGRAM_ID: [u8; 32] = [
    1, 86, 224, 246, 147, 102, 90, 207, 68, 219, 21, 104, 191, 23, 91, 170, 81, 137, 203, 151,
    245, 210, 255, 59, 101, 93, 43, 182, 253, 109, 24, 176,
];

/// Discriminator of the `Global` account: sha256("account:Global")[..8].
pub open spec fn global_disc() -> Seq<u8> {
    seq![167u8, 232, 232, 177, 200, 108, 114, 127]
}

/// Discriminator of the `BondingCurve` account: sha256("account:BondingCurve")[..8].
pub open spec fn bonding_curve_disc() -> Seq<u8> {
    seq![23u8, 183, 248, 55, 96, 216, 172, 96]
}

/// The seed "global" of the global account address.
pub open spec fn global_seed() -> Seq<u8> {
    seq![103u8, 108, 111, 98, 97, 108]
}

/// The edges of a Pump.fun account: the global account is linked from the
/// program, a bonding curve from the global account (its structural parent).
pub open spec fn pumpfun_edges(
    program_id: Seq<u8>,
    global: Seq<u8>,
    h: AccountHeader,
    data: Seq<u8>,
) -> Seq<EdgeView> {
    if has_discriminator(global_disc(), data) {
        in_from(h, WEIGHT_DIRECT, program_id)
    } else if has_discriminator(bonding_curve_disc(), data) {
        in_from(h, WEIGHT_DIRECT, global)
    } else {
        seq![]
    }
}

/// Every edge of a Pump.fun account is at the account's slot and links the
/// account to the program or to the global account.
pub proof fn lemma_pumpfun_edges_sound(program_id: Seq<u8>, global: Seq<u8>, h: AccountHeader, data: Seq<u8>)
    ensures
        edges_sound(pumpfun_edges(program_id, global, h, data), h, data, set![program_id, global]),
        edges_avoid_system(pumpfun_edges(program_id, global, h, data), h, set![program_id, global]),
{
    broadcast use group_sound, group_avoids;

    assert(set![program_id, global].contains(program_id));
    assert(set![program_id, global].contains(global));
}

/// The data of an account matches at most one of the program's discriminators,
/// so the order in which the filter tests them does not change its edges.
pub proof fn lemma_pumpfun_kinds_exclusive(data: Seq<u8>)
    ensures
        (if has_discriminator(global_disc(), data) { 1int } else { 0 })
            + (if has_discriminator(bonding_curve_disc(), data) { 1int } else { 0 }) <= 1,
{
    if data.len() >= 8 {
        assert(data.subrange(0, 8)[0] == data[0]);
    }
}

/// The Pump.fun global account is linked from the program, and from nothing
/// else.
pub proof fn lemma_pumpfun_global_links(program_id: Seq<u8>, global: Seq<u8>, h: AccountHeader, data: Seq<u8>)
    requires
        has_discriminator(global_disc(), data),
    ensures
        ({
            let e = pumpfun_edges(program_id, global, h, data);
            let d = data;
            &&& e.len() == 1int
            &&& e[0int] == link(h.slot, WEIGHT_DIRECT, program_id, h.pubkey@)
        }),
{
    let d = data;
    let p0 = in_from(h, WEIGHT_DIRECT, program_id);
    let s0 = p0;
    assert(pumpfun_edges(program_id, global, h, data) == s0);
    assert(s0[0int] == p0[0]);
}

/// A Pump.fun bonding curve is linked from the global account, and from nothing
/// else.
pub proof fn lemma_pumpfun_bonding_curve_links(program_id: Seq<u8>, global: Seq<u8>, h: AccountHeader, data: Seq<u8>)
    requires
        has_discriminator(bonding_curve_disc(), data),
    ensures
        ({
            let e = pumpfun_edges(program_id, global, h, data);
            let d = data;
            &&& e.len() == 1int
            &&& e[0int] == link(h.slot, WEIGHT_DIRECT, global, h.pubkey@)
        }),
{
    lemma_pumpfun_kinds_exclusive(data);
    let d = data;
    let p0 = in_from(h, WEIGHT_DIRECT, global);
    let s0 = p0;
    assert(pumpfun_edges(program_id, global, h, data) == s0);
    assert(s0[0int] == p0[0]);
}

/// Edge generator for accounts of the Pump.fun program.
pub struct Pumpfun {
    d_global: [u8; 8],
    d_bonding_curve: [u8; 8],
    pub program_id: Pubkey,
    global: Pubkey,
}

impl Pumpfun {
    /// The filter holds the discriminators of the program.
    pub closed spec fn wf(&self) -> bool {
        &&& self.d_global@ == global_disc()
        &&& self.d_bonding_curve@ == bonding_curve_disc()
    }

    /// The address of the program that the filter serves.
    pub closed spec fn program(&self) -> Seq<u8> {
        self.program_id@
    }

    /// The address of the global account.
    pub closed spec fn global(&self) -> Seq<u8> {
        self.global@
    }

    /// Builds the filter, deriving the global account address PDA(["global"]).
    pub fn new(program_id: &Pubkey) -> (s: Self)
        requires
            derived_address(global_seed(), program_id@) is Some,
        ensures
            s.wf(),
            s.program() == program_id@,
            Some(s.global()) == derived_address(global_seed(), program_id@),
    {
        let seed: [u8; 6] = [103, 108, 111, 98, 97, 108];
        assert(seed@ =~= global_seed());
        let global = find_program_address(&seed, program_id).unwrap();
        Self {
            program_id: *program_id,
            global,
            d_global: global_discriminator(),
            d_bonding_curve: bonding_curve_discriminator(),
        }
    }

    /// Builds the filter where the global account address exists, else `None`.
    pub fn try_new(program_id: &Pubkey) -> (r: Option<Self>)
        ensures
            r is Some <==> derived_address(global_seed(), program_id@) is Some,
            r matches Some(s) ==> {
                &&& s.wf()
                &&& s.program() == program_id@
                &&& Some(s.global()) == derived_address(global_seed(), program_id@)
            },
    {
        let seed: [u8; 6] = [103, 108, 111, 98, 97, 108];
        assert(seed@ =~= global_seed());
        if find_program_address(&seed, program_id).is_some() {
            Some(Self::new(program_id))
        } else {
            None
        }
    }

    /// The programs whose accounts this filter reads.
    pub fn program_id_list(&self) -> (v: Vec<Pubkey>)
        ensures
            v@.len() == 1,
            v@[0]@ == self.program(),
    {
        vec![self.program_id]
    }

    /// Lists the edges that the account implies.
    pub fn edge(&self, header: &AccountHeader, data: &[u8]) -> (list: VecDeque<FilterEdge>)
        requires
            self.wf(),
        ensures
            edges_view(list@) == pumpfun_edges(self.program(), self.global(), *header, data@),
    {
        let mut list: VecDeque<FilterEdge> = VecDeque::new();
        let id = header.pubkey;
        assert(edges_view(list@) =~= Seq::<EdgeView>::empty());
        if match_discriminator(&self.d_global, data) {
            // program -> global; the global account stores no address
            push_link(&mut list, header.slot, WEIGHT_DIRECT, self.program_id, id);
        } else if match_discriminator(&self.d_bonding_curve, data) {
            // global -> bonding curve; the curve's creator and quote mint are
            // skipped, and its token vault is found through the token program
            push_link(&mut list, header.slot, WEIGHT_DIRECT, self.global, id);
        }
        list
    }
}

/// Discriminator of the `Global` account: sha256("account:Global")[..8].
pub fn global_discriminator() -> (d: [u8; 8])
    ensures
        d@ == global_disc(),
{
    let d = [167, 232, 232, 177, 200, 108, 114, 127];
    assert(d@ =~= global_disc());
    d
}

/// Discriminator of the `BondingCurve` account: sha256("account:BondingCurve")[..8].
pub fn bonding_curve_discriminator() -> (d: [u8; 8])
    ensures
        d@ == bonding_curve_disc(),
{
    let d = [23, 183, 248, 55, 96, 216, 172, 96];
    assert(d@ =~= bonding_curve_disc());
    d
}

} // verus!
