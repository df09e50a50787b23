# blueshift_escrow

A token escrow for Solana (Make, Take, Refund), the instruction dispatch of a
lamport vault, and the refund handler of the same escrow written for Anchor,
with the checks, stored state and planned calls of every instruction verified
by Verus.

Layout:

- `src/account.rs` — the model of an account (`AccountInfo`) and the program ids.
- `src/pda.rs` — program address derivation, through `solana_address`
  (trusted wrappers), and the law that a found bump re-derives its address.
- `src/state.rs` — the escrow's stored terms and their byte layout; the
  round-trip law; the check of an escrow against its maker.
- `src/helpers.rs` — account checks (signer, mint, token account, associated
  token account, escrow) and closing an escrow.
- `src/cpi.rs` — the calls an instruction asks for, in order.
- `src/instructions/` — Make, Take and Refund: account checks, parameters,
  and the calls each one plans.
- `src/vault.rs`, `src/anchor_escrow.rs` — the vault's dispatch and the Anchor
  refund handler.
- `src/laws.rs` — the law that an offer Make opens is one Take and Refund accept.
- `app/` — the program entrypoint: reads the runtime's accounts into the
  model, runs the library, performs the planned calls with pinocchio.
