# crypto_price_tracker_v2

A terminal dashboard for a crypto portfolio: live prices and P&L, holdings,
valuation, capital-gains tax, tax-aware rebalancing and performance history.

The library in `src/` holds the logic, written in Verus with its contracts
proved:

- `dec`, `time`, `text`, `paths`: decimals (through `rust_decimal`), UTC
  instants (through `chrono`), string order, splitting and trimming, and
  Unix path rules.
- `model`, `table`: ledger events, holdings and valuation rows as plain data.
- `engine`, `portfolio`: the boundary with the `coinbasis` cost-basis engine
  and the portfolio model (holdings with value, valuation, realized gains,
  the HIFO estimate of a sale's gain).
- `rebalance`: drift against target weights, the suggested trades and their
  totals, allocation comparison.
- `ledger`: CSV rows to ledger events, duplicate-free import, asset lists.
- `tax`: tax rules as plain values and the bracketed tax estimate made by
  `coinbasis` on a year's gains.
- `config`: settings, symbols, normalized targets, API key choice and which
  configuration file to use.
- `controls`, `event`: the dashboard's state, key bindings and actions.
- `prices`, `perf`, `export`, `price_table`: price books and the cache
  rules, value history and ledger replay, CSV layouts, and the sorted price
  table.

`app/` is the program around it: command line, files and serde forms,
CoinGecko fetches, floating-point analytics (`cryptolytics`), and the
`ratatui` views. `tests/` exercises the library.
