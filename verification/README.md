# battlechain

Verified logic of an on-chain, turn-based battle game and of the
prediction market that trades on its matches, written in Verus.

- `src/battlechain_v2/` — the battle game: characters and their
  progression, battle offers and join requests, the entropy pool that feeds
  every turn, stance sampling, damage, wildcard and class specials, rounds
  of three turns, forfeits and the settlement of the stakes. Each
  instruction is a state transition over account data with an exact
  contract; the proof functions named `law_*` state what holds across
  calls (health never rises in a turn, entropy indices are never reused,
  a battle never runs past its last round, and more).
- `src/prediction_market/` — a constant-product market maker over the YES
  and NO outcome of a scheduled match: trading, liquidity, resolution,
  claims and refunds.
- `src/pubkey.rs` — account addresses as plain 32-byte values.
- `tests/` — scenarios on concrete values.
- `app/` — the Anchor handlers around the library: accounts, lamport and
  token transfers, events, and the figures reported in floating point.

The one outside call the library makes is SHA-256 (`hashv` of
`anchor-lang`), behind a single trusted wrapper in
`src/battlechain_v2/utils/math.rs`.
