# Arbitrage opportunity detector

Asks two exchanges on Polygon what an amount of WETH is worth in USDC, works out where to buy and
where to sell, prices the gas of the swap, and logs opportunities that earn enough into a SQLite
database. It detects and logs; it never trades.

- `src/` is the library, verified with Verus: the decisions of the detector.
- `app/` is the program around it: the node, the database, the clock, the environment, and the
  arithmetic on double-precision numbers. The profits and the threshold for a better opportunity,
  0.1 USDC above the net profit that was logged last, are computed there.
- `tests/` runs the library.

## The library

| module     | what it holds                                                              |
|------------|----------------------------------------------------------------------------|
| `digits`   | decimal numerals                                                           |
| `amount`   | 256-bit token amounts, on top of `ethers::types::U256`                     |
| `format`   | amounts as text, and amounts from whole and fractional parts               |
| `number`   | the order of double-precision numbers                                      |
| `address`  | addresses, and the paths of swaps                                          |
| `clock`    | instants, their RFC 3339 texts and the time between them, on top of `chrono` |
| `quote`    | quotes of the exchanges                                                    |
| `gas`      | what a swap costs in gas                                                   |
| `detect`   | one detection, from quotes to verdict                                      |
| `record`   | logged opportunities and their rows                                        |
| `schedule` | when to detect and when to stop                                            |
| `config`   | settings and their defaults                                                |

Calls into outside crates stand behind functions marked `external_body`, each with a contract that
says what the crate promises. The other functions are proved.

## Running it

Set `POLYGON_RPC`, `DEX1_ROUTER`, `DEX2_ROUTER`, `WETH_ADDRESS`, `USDC_ADDRESS` and
`WMATIC_ADDRESS`, in the environment or in a `.env` file. Optional settings: `TRADE_SIZE_WETH`,
`SLIPPAGE_TOLERANCE`, `MIN_PROFIT_USDC`, `POLL_INTERVAL_SECONDS`, `FALLBACK_GAS_USDC`,
`ESTIMATE_FROM_ADDRESS`, `DB_FILE`, `MAX_ITERS`, `TEST_MODE`, `TEST_BASE_PRICE` and
`TEST_SPREAD_USDC`.
