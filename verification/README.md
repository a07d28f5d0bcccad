# spl_faucet

A token faucet for Solana, written in Verus.

The faucet program holds a deposit of SPL tokens on behalf of its authority address
(derived from the seed `stamm`). A holder starts an airdrop by handing the deposit over;
a taker who signs may have tokens moved from it into their token account; the holder who
started it may finish it, sending what is left to a receiver account and taking back the
deposit's and the airdrop account's lamports. A second program, `stamm`, plans the calls
that hand the minting authority over three token mints to the same kind of derived
address, and the on-chain glue in `app/` makes them.

## Layout

- `src/instruction.rs`: the faucet's instructions and their byte encoding.
- `src/state.rs`: the airdrop record and how it is stored in its account.
- `src/processor.rs`: the faucet's decisions. `process` checks an instruction and plans
  the calls into the token program; `complete_start_airdrop` and
  `complete_finish_airdrop` decide what follows those calls.
- `src/genesis.rs`: the `stamm` program.
- `src/client.rs`: the instructions that the command-line client sends.
- `src/error.rs`, `src/address.rs`: errors and account addresses.
- `src/runtime.rs`: the calls into `solana-program` and `spl-token`, with the contracts
  that the rest of the library relies on.
- `app/`: the command-line client and the glue that runs the planned calls on chain.
- `tests/`: tests on concrete values, checked against the runtime and token libraries.
