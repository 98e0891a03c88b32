//! The calls into the Solana and SPL Token crates that the filters make.
use spl_token::solana_program::program_pack::Pack;
use vstd::prelude::*;

use super::pubkey::{key_at, zero_key, Pubkey};

verus! {

/// The address that `Pubkey::try_find_program_address` derives from one seed
/// and a program id, or `None` where no bump seed gives an address off the
/// ed25519 curve. The derivation hashes the seed, a bump, the program id and
/// a marker with SHA-256 and tests the hash against the curve.
pub uninterp spec fn derived_address(seed: Seq<u8>, program_id: Seq<u8>) -> Option<Seq<u8>>;

/// Calls `solana_sdk::pubkey::Pubkey::try_find_program_address` with the one
/// seed `seed` and keeps the address, dropping the bump seed. The contract
/// claims only that the result is `derived_address` of the seed and the program
/// id; the library states nothing of that function's value.
#[verifier::external_body]
pub(crate) fn find_program_address(seed: &[u8], program_id: &Pubkey) -> (r: Option<Pubkey>)
    ensures
        match r {
            Some(k) => derived_address(seed@, program_id@) == Some(k@),
            None => derived_address(seed@, program_id@) is None,
        },
{
    let program = solana_sdk::pubkey::Pubkey::new_from_array(program_id.bytes);
    match solana_sdk::pubkey::Pubkey::try_find_program_address(&[seed], &program) {
        Some((k, _bump)) => Some(Pubkey { bytes: k.to_bytes() }),
        None => None,
    }
}

/// The address of the system program, "11111111111111111111111111111111".
pub open spec fn system_program_key() -> Seq<u8> {
    zero_key()
}

/// The address of the SPL Token program, "TokenkegQfeZyiNwAJbNbGKPFXCWuBvf9Ss623VQ5DA".
pub open spec fn token_program_key() -> Seq<u8> {
    seq![
        6u8, 221, 246, 225, 215, 101, 161, 147, 217, 203, 225, 70, 206, 235, 121, 172, 28, 180,
        133, 237, 95, 91, 55, 145, 58, 140, 245, 133, 126, 255, 0, 169,
    ]
}

/// The address of the BPF loader, "BPFLoader2111111111111111111111111111111111".
pub open spec fn bpf_loader_key() -> Seq<u8> {
    seq![
        2u8, 168, 246, 145, 78, 136, 161, 110, 57, 90, 225, 40, 148, 143, 250, 105, 86, 147, 55,
        104, 24, 221, 71, 67, 82, 33, 243, 198, 0, 0, 0, 0,
    ]
}

/// Reads `solana_sdk::system_program::ID`; the contract claims its bytes, the
/// base58 decoding of the id that the crate declares.
#[verifier::external_body]
pub(crate) fn system_program_id() -> (k: Pubkey)
    ensures
        k@ == system_program_key(),
{
    Pubkey { bytes: solana_sdk::system_program::ID.to_bytes() }
}

/// Reads `spl_token::ID`; the contract claims its bytes, the base58 decoding of
/// the id that the crate declares.
#[verifier::external_body]
pub(crate) fn token_program_id() -> (k: Pubkey)
    ensures
        k@ == token_program_key(),
{
    Pubkey { bytes: spl_token::ID.to_bytes() }
}

/// Reads `solana_sdk::bpf_loader::ID`; the contract claims its bytes, the base58
/// decoding of the id that the crate declares.
#[verifier::external_body]
pub(crate) fn bpf_loader_id() -> (k: Pubkey)
    ensures
        k@ == bpf_loader_key(),
{
    Pubkey { bytes: solana_sdk::bpf_loader::ID.to_bytes() }
}

/// Whether the 4-byte tag of a packed `COption` at `off` is `None` (0) or `Some` (1).
pub open spec fn coption_tag_valid(data: Seq<u8>, off: int) -> bool {
    &&& data[off] == 0 || data[off] == 1
    &&& data[off + 1] == 0
    &&& data[off + 2] == 0
    &&& data[off + 3] == 0
}

/// Whether `Account::unpack` of SPL Token accepts the data: 165 bytes, the
/// delegate, native and close authority tags valid, and the state byte
/// `Initialized` (1) or `Frozen` (2).
pub open spec fn token_account_valid(data: Seq<u8>) -> bool {
    &&& data.len() == 165
    &&& coption_tag_valid(data, 72)
    &&& data[108] == 1 || data[108] == 2
    &&& coption_tag_valid(data, 109)
    &&& coption_tag_valid(data, 129)
}

/// Calls `spl_token::state::Account::unpack` and keeps the mint and the owner.
/// The contract claims what the crate's `unpack_unchecked`, `unpack_from_slice`
/// and `is_initialized` show: the data is accepted exactly when it has the
/// packed length 165, valid option tags at 72, 109 and 129 and an initialized
/// or frozen state byte at 108; the mint is bytes 0..32 and the owner 32..64.
#[verifier::external_body]
pub(crate) fn unpack_token_account(data: &[u8]) -> (r: Option<(Pubkey, Pubkey)>)
    ensures
        r is Some <==> token_account_valid(data@),
        r matches Some((mint, owner)) ==> mint@ == key_at(data@, 0) && owner@ == key_at(data@, 32),
{
    match spl_token::state::Account::unpack(data) {
        Ok(a) => Some((Pubkey { bytes: a.mint.to_bytes() }, Pubkey { bytes: a.owner.to_bytes() })),
        Err(_e) => None,
    }
}

} // verus!
