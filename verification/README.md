# catscope_edge_generator

Edge generation for a graph of Solana accounts, verified with Verus.

Each filter reads the raw data of an account owned by one on-chain program
(Orca, Raydium AMM/CPMM/CLMM, Meteora, Kamino, Kvault, Sanctum and Infinity,
Pump.fun, PumpSwap, Safejar, Solpipe, the stake pool program, the flat-fee
pricing program, and the system / SPL Token / BPF loader programs) and lists
the edges that the account implies.

- `src/` is the verified library. Every filter's `edge` is specified by a
  spec function of the account header and bytes (`<program>_edges`), and each
  filter has a lemma stating that its edges are observed at the account's slot,
  touch the account, and link it only to the filter's own addresses or to
  addresses stored in the account data. For Infinity this holds except for the
  LST list, whose mint-to-calculator edges touch neither end of the account;
  a separate lemma shows that their ends are stored in the list. `src/primitive/solana.rs` holds the
  calls into `solana-sdk` and `spl-token`, each with the contract that the
  library relies on.
- `app/` is the host-side glue: the dynamic filter interface, the default set
  of filters, conversions to the SDK's address type, and Borsh encodings of
  the Solpipe records.
- `tests/` runs the library on concrete account data.
