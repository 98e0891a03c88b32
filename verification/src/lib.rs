//! Edge generation for a graph of Solana accounts.
//!
//! Each filter reads the raw data of an account owned by one on-chain program
//! and lists the edges (account to account links) that the account implies.
use vstd::prelude::*;

use primitive::pubkey::{key_at, zero_key, Pubkey};

pub mod infitnity;
pub mod kamino;
pub mod kvault;
pub mod meteora;
pub mod orca;
pub mod primitive;
pub mod pumpfun;
pub mod pumpswap;
pub mod raydium;
pub mod raydium_clmm;
pub mod s;
pub mod safejar;
pub mod sanctum;
pub mod solpipe;
pub mod stake_pool;

verus! {

/// Length of the discriminator that starts the data of an Anchor account.
pub const DISCRIMINATOR_SIZE: usize = 8;

/// The address, unless it is the system program.
pub fn pubkey_not_blank(pubkey: &Pubkey) -> (r: Option<&Pubkey>)
    ensures
        r is Some <==> pubkey@ != zero_key(),
        r matches Some(k) ==> k == pubkey,
{
    if pubkey.is_system() {
        None
    } else {
        Some(pubkey)
    }
}

/// The address held by 32 bytes of data, unless the data has another length
/// or holds the system program.
pub fn read_pubkey(data: &[u8]) -> (r: Option<Pubkey>)
    ensures
        r is Some <==> (data@.len() == 32 && data@ != zero_key()),
        r matches Some(k) ==> k@ == data@,
{
    if data.len() != 32 {
        return None;
    }
    let pubkey = Pubkey::read_at(data, 0);
    assert(key_at(data@, 0) =~= data@);
    if pubkey.is_system() {
        return None;
    }
    Some(pubkey)
}

} // verus!
