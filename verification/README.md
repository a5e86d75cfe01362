# random_prize_game

The rules of an on-chain prize draw, verified with Verus.

- `src/state.rs` — the pool, prize and player accounts as plain values, and the program's errors.
- `src/accounts.rs` — what each instruction reads of its accounts, and the account constraints.
- `src/admin.rs` — setting up the pool, registering players, setting odds, stocking prizes.
- `src/game.rs` — a play: the odds, the pick, and the draw.
- `src/hash.rs` — the SHA-256 seed of a play (through `sha2`) and its byte sum.
- `src/claim.rs` — paying out a waiting prize.
- `src/transfer.rs` — the transfers an instruction asks the runtime to make.
- `src/laws.rs` — properties across operations.
- `app/` — the Anchor program around the library: account loading, the clock, and the transfers.
