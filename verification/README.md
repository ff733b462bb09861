# normal_contracts

Verified core of a family of Soroban DeFi contracts: an insurance fund that stakers back
against pool deficits, a buffer of protocol revenue, an oracle registry that keeps
time-weighted averages of external price feeds, and the pricing and re-pegging rules of the
liquidity pools.

The library under `src/` is written in Verus. Each contract entry point is a function from the
stored state and the request to the new state, or to the error that aborts the call; its
`ensures` states that transition exactly, over spec functions of plain integers.

- `constants`, `math`, `fixed_point`: precisions, logarithms and powers of ten, weighted and
  time-weighted averages, price sanitizing, and the calls into `soroban-fixed-point-math`.
- `insurance`, `stake`, `interest`, `insurance_fund`: reserve books and stakes, share
  rebasing and share/amount conversions, utilization and the two-slope interest rate, and the
  deposit / withdrawal-request / cancel / withdraw transitions.
- `buffer`: the buffer's reserve books and its deposit, payout and surplus rules.
- `oracle_types`, `oracle`, `oracle_storage`, `oracle_registry`: oracle validity, spreads and
  divergence, TWAP updates, the hot/cold/legacy storage tiers, and the registry's transitions.
- `pool`, `elastic`: swap quotes, pool prices, and the mint/burn rebalancing toward the peg.

Laws that relate several functions (books that stay balanced, deposits and redemptions that
never dilute other stakers, reads that return what was written, rates that never fall as
utilization rises, and others) are public proof functions beside the code they speak of.

`app/` holds the Soroban contracts themselves: authorization, storage, token transfers, calls to
other contracts and events, around the library's transitions. `tests/` exercises the library
on concrete values.
