pub mod common;
pub mod err;
pub mod header;
pub mod provenance;
pub mod pubkey;
pub mod solana;
pub mod soltoken;
pub mod tree;
pub mod wasmimport;
