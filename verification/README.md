# predict_iq

Verified resolution rules of a Soroban prediction market.

- `src/oracles.rs`: checks on Pyth price reports (timestamp, staleness,
  confidence interval in basis points) and the outcome a price resolves to.
- `src/resolution.rs`: the market life cycle from oracle proposal through the
  dispute window, the supermajority vote count, and the administrative
  fallback for deadlocked disputes.
- `src/laws.rs`: properties that relate these transitions (finality of a
  resolved market, exactly one way out of a finished dispute, no early
  finalization).
- `app/`: the contract side; it reads markets, tallies and the ledger time
  from the Soroban environment, calls the rules, and stores what they decide.
