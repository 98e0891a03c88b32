//! State that the guest keeps about the transactions it has sent to the host.
use std::collections::HashMap;
use vstd::prelude::*;

use super::err::CatscopeWasmError;

verus! {

/// The last known state of a sent transaction.
#[derive(Clone, Copy)]
pub struct TransactionState {
    status: u8,
    slot: u64,
}

impl TransactionState {
    /// The status that the host reported.
    pub closed spec fn status(&self) -> u8 {
        self.status
    }

    /// The slot that the host reported.
    pub closed spec fn slot(&self) -> u64 {
        self.slot
    }

    /// The status that the host reported.
    pub fn current_status(&self) -> (r: u8)
        ensures
            r == self.status(),
    {
        self.status
    }

    /// The slot that the host reported.
    pub fn current_slot(&self) -> (r: u64)
        ensures
            r == self.slot(),
    {
        self.slot
    }

    /// A transaction that has just been sent: status 0 at slot 0.
    pub fn new() -> (s: Self)
        ensures
            s.status() == 0,
            s.slot() == 0,
    {
        TransactionState { status: 0, slot: 0 }
    }
}

/// The transactions sent through the host, keyed by the callback id that the
/// host reports back with.
pub struct HostImport {
    pub m_tx: HashMap<u64, TransactionState>,
}

impl Default for HostImport {
    fn default() -> (s: Self)
        ensures
            s.m_tx@ == Map::<u64, TransactionState>::empty(),
    {
        HostImport { m_tx: HashMap::new() }
    }
}

/// The number of cached address lookups above which the cache is emptied
/// before new answers are stored.
pub const MAX_PUBKEY_HASHMAP_SIZE: usize = 1000;

/// Whether a lookup of `list_len` addresses must ask the host, where
/// `only_key_cached` tells whether a single address is already cached: an
/// empty list never asks, and a single cached address is answered from the
/// cache.
pub fn pubkey_lookup_needed(list_len: usize, only_key_cached: bool) -> (b: bool)
    ensures
        b == (list_len > 0 && !(list_len == 1 && only_key_cached)),
{
    if list_len == 0 {
        return false;
    }
    if list_len == 1 && only_key_cached {
        return false;
    }
    true
}

/// Whether a cache of `cache_len` lookups must be emptied before the host's
/// answers are stored: when it holds more than `MAX_PUBKEY_HASHMAP_SIZE`.
pub fn pubkey_cache_must_clear(cache_len: usize) -> (b: bool)
    ensures
        b == (cache_len > MAX_PUBKEY_HASHMAP_SIZE),
{
    MAX_PUBKEY_HASHMAP_SIZE < cache_len
}

/// The state of the transactions after a send under `id`: the transaction
/// starts at status 0 and slot 0; every other transaction is unchanged.
pub open spec fn after_send(before: Map<u64, TransactionState>, after: Map<u64, TransactionState>, id: u64) -> bool {
    &&& after.dom() == before.dom().insert(id)
    &&& after[id].status() == 0
    &&& after[id].slot() == 0
    &&& forall|k: u64| k != id && #[trigger] before.contains_key(k) ==> after[k] == before[k]
}

/// The state of the transactions after the host's response for `id`: a known
/// transaction takes the reported slot and status, every other one is
/// unchanged; a response for an unknown id changes nothing.
pub open spec fn after_response(
    before: Map<u64, TransactionState>,
    after: Map<u64, TransactionState>,
    id: u64,
    slot: u64,
    status: u8,
) -> bool {
    if before.contains_key(id) {
        &&& after.dom() == before.dom()
        &&& after[id].slot() == slot
        &&& after[id].status() == status
        &&& forall|k: u64| k != id && #[trigger] before.contains_key(k) ==> after[k] == before[k]
    } else {
        after == before
    }
}

/// What the host answers for a sent transaction is what the guest then holds
/// for it: after a send under `id` and a response for `id`, the transaction is
/// known, with the reported slot and status.
pub proof fn lemma_response_after_send(
    m0: Map<u64, TransactionState>,
    m1: Map<u64, TransactionState>,
    m2: Map<u64, TransactionState>,
    id: u64,
    slot: u64,
    status: u8,
)
    requires
        after_send(m0, m1, id),
        after_response(m1, m2, id, slot, status),
    ensures
        m2.contains_key(id),
        m2[id].slot() == slot,
        m2[id].status() == status,
{
    assert(m1.contains_key(id));
}

impl HostImport {
    /// Whether a transaction can be sent at all: an empty one is refused with
    /// `InsufficientBuffer` before any buffer is taken or the host is called.
    pub fn tx_check(tx: &[u8]) -> (r: Result<(), CatscopeWasmError>)
        ensures
            r is Err <==> tx@.len() == 0,
            r is Err ==> r == Err::<(), CatscopeWasmError>(CatscopeWasmError::InsufficientBuffer),
    {
        if tx.len() == 0 {
            Err(CatscopeWasmError::InsufficientBuffer)
        } else {
            Ok(())
        }
    }

    /// What a send comes to once the host has answered `host_result` for the
    /// transaction copied at `callback_id`: a negative answer is
    /// `NotImplemented` and records nothing; otherwise the transaction is
    /// recorded at status 0 and slot 0, and its callback id is returned.
    pub fn tx_sent(&mut self, callback_id: u64, host_result: i32) -> (r: Result<u64, CatscopeWasmError>)
        ensures
            host_result < 0 ==> r == Err::<u64, CatscopeWasmError>(CatscopeWasmError::NotImplemented)
                && final(self).m_tx@ == old(self).m_tx@,
            host_result >= 0 ==> r == Ok::<u64, CatscopeWasmError>(callback_id) && after_send(
                old(self).m_tx@,
                final(self).m_tx@,
                callback_id,
            ),
    {
        if host_result < 0 {
            return Err(CatscopeWasmError::NotImplemented);
        }
        self.m_tx.insert(callback_id, TransactionState::new());
        Ok(callback_id)
    }

    /// Records the host's response for a sent transaction: a known callback id
    /// gets the new slot and status; an unknown one is ignored.
    pub fn tx_response(&mut self, callback_id: u64, slot: u64, status: u8)
        ensures
            after_response(old(self).m_tx@, final(self).m_tx@, callback_id, slot, status),
    {
        if self.m_tx.contains_key(&callback_id) {
            self.m_tx.insert(callback_id, TransactionState { status, slot });
            assert(self.m_tx@.dom() =~= old(self).m_tx@.dom());
        }
    }
}

} // verus!
