//! The metadata that comes with every account.
use vstd::prelude::*;

use super::pubkey::Pubkey;

verus! {

/// What is known of an account apart from its data.
#[derive(Clone, Copy, Debug)]
pub struct AccountHeader {
    /// Address of the account.
    pub pubkey: Pubkey,
    /// Balance in lamports.
    pub lamports: u64,
    /// Length of the account data in bytes.
    pub data_size: u32,
    /// Identifier that the host assigns to the account.
    pub account_id: u64,
    /// Program that owns the account.
    pub owner: Pubkey,
    /// Epoch at which rent is next due.
    pub rent_epoch: u64,
    /// Slot at which this version of the account was written.
    pub slot: u64,
    /// Whether the account holds a program.
    pub executable: bool,
}

} // verus!
